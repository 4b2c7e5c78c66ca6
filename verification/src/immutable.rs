//! Immutability enforcement, matching OpenShift CNO semantics.
//!
//! Some choices cannot change under a running dataplane without a disruptive
//! re-plumb. The reconciler refuses such a change: the install keeps running on
//! the applied config and the CR goes `Degraded` explaining what was rejected.
//!
//! The baseline is `status.applied*`, written on the first successful apply.
//! Before that there is nothing to protect, so anything goes.

use vstd::prelude::*;

use crate::crd::{IpamMode, Mode, NetworkStatus, NetworkStatusView, RoutingMode};
use crate::modes::{EffectiveConfig, EffectiveConfigView};
use crate::text::{cat, cat3, clone_strings, join, str_eq};

verus! {

use crate::text::joined;

/// A field that changed but may not.
#[derive(Clone, Debug, PartialEq, Eq)]
pub struct Violation {
    pub field: String,
    pub applied: String,
    pub requested: String,
}

/// What a [`Violation`] holds.
#[verifier::ext_equal]
pub struct ViolationView {
    pub field: Seq<char>,
    pub applied: Seq<char>,
    pub requested: Seq<char>,
}

impl DeepView for Violation {
    type V = ViolationView;

    open spec fn deep_view(&self) -> ViolationView {
        ViolationView {
            field: self.field.deep_view(),
            applied: self.applied.deep_view(),
            requested: self.requested.deep_view(),
        }
    }
}

impl ViolationView {
    /// The violation in one line.
    pub open spec fn line(self) -> Seq<char> {
        self.field + " is immutable after install (applied "@ + self.applied + ", requested "@
            + self.requested + ")"@
    }
}

impl Violation {
    /// The violation in one line.
    pub fn describe(&self) -> (r: String)
        ensures
            r@ == self.deep_view().line(),
    {
        let applied = cat3(
            self.field.as_str(),
            " is immutable after install (applied ",
            self.applied.as_str(),
        );
        let requested = cat3(applied.as_str(), ", requested ", self.requested.as_str());
        cat(requested.as_str(), ")")
    }
}

// --- what is compared ------------------------------------------------------

/// A word that was applied once and is asked for differently now.
pub open spec fn word_violation(
    field: Seq<char>,
    applied: Option<Seq<char>>,
    requested: Seq<char>,
) -> Seq<ViolationView> {
    match applied {
        Some(was) if was != requested => seq![ViolationView { field, applied: was, requested }],
        _ => seq![],
    }
}

/// A list that was applied once and is asked for differently now; an empty
/// list was never applied.
pub open spec fn list_violation(
    field: Seq<char>,
    applied: Seq<Seq<char>>,
    requested: Seq<Seq<char>>,
) -> Seq<ViolationView> {
    if applied.len() == 0 || applied == requested {
        seq![]
    } else {
        seq![
            ViolationView {
                field,
                applied: joined(applied, ","@),
                requested: joined(requested, ","@),
            },
        ]
    }
}

/// Everything that a config changes and may not: the datapath family, the IPAM
/// mode, the pod CIDRs and the service CIDRs, in this order.
pub open spec fn violations(
    cfg: EffectiveConfigView,
    status: Option<NetworkStatusView>,
) -> Seq<ViolationView> {
    match status {
        None => seq![],
        Some(s) => word_violation(
            "spec.mode (datapath family)"@,
            s.applied_datapath,
            cfg.routing.name(),
        ) + word_violation("spec.cilium.ipam.mode"@, s.applied_ipam, cfg.ipam.name())
            + list_violation(
            "spec.clusterNetwork"@,
            s.applied_cluster_network,
            cfg.cluster_network,
        ) + list_violation(
            "spec.serviceNetwork"@,
            s.applied_service_network,
            cfg.service_network,
        ),
    }
}

/// A status with the baseline of a config: what is installed once it is applied.
pub open spec fn baseline(cfg: EffectiveConfigView, status: NetworkStatusView) -> NetworkStatusView {
    NetworkStatusView {
        applied_mode: Some(cfg.mode.name()),
        applied_version: Some(cfg.version),
        applied_datapath: Some(cfg.routing.name()),
        applied_ipam: Some(cfg.ipam.name()),
        applied_cluster_network: cfg.cluster_network,
        applied_service_network: cfg.service_network,
        ..status
    }
}

// --- comparing -------------------------------------------------------------

fn compare(out: &mut Vec<Violation>, field: &str, applied: &Option<String>, requested: &str)
    ensures
        final(out).deep_view() == old(out).deep_view() + word_violation(
            field@,
            applied.deep_view(),
            requested@,
        ),
{
    let ghost before = out.deep_view();
    if let Some(was) = applied {
        if !str_eq(was.as_str(), requested) {
            let v = Violation {
                field: field.to_string(),
                applied: was.clone(),
                requested: requested.to_string(),
            };
            out.push(v);
        }
    }
    assert(out.deep_view() =~= before + word_violation(field@, applied.deep_view(), requested@));
}

/// Whether two lists hold the same strings in the same order.
fn same_strings(a: &Vec<String>, b: &Vec<String>) -> (r: bool)
    ensures
        r == (a.deep_view() == b.deep_view()),
{
    if a.len() != b.len() {
        assert(a.deep_view().len() != b.deep_view().len());
        return false;
    }
    let mut i: usize = 0;
    while i < a.len()
        invariant
            i <= a.len(),
            a.len() == b.len(),
            forall|j: int| 0 <= j < i ==> (#[trigger] a@[j])@ == b@[j]@,
        decreases a.len() - i,
    {
        if !str_eq(a[i].as_str(), b[i].as_str()) {
            assert(a.deep_view()[i as int] != b.deep_view()[i as int]);
            return false;
        }
        i = i + 1;
    }
    assert(a.deep_view() =~= b.deep_view());
    true
}

fn compare_list(
    out: &mut Vec<Violation>,
    field: &str,
    applied: &Vec<String>,
    requested: &Vec<String>,
)
    ensures
        final(out).deep_view() == old(out).deep_view() + list_violation(
            field@,
            applied.deep_view(),
            requested.deep_view(),
        ),
{
    let ghost before = out.deep_view();
    if applied.len() > 0 && !same_strings(applied, requested) {
        let v = Violation {
            field: field.to_string(),
            applied: join(applied, ","),
            requested: join(requested, ","),
        };
        out.push(v);
    }
    assert(out.deep_view() =~= before + list_violation(
        field@,
        applied.deep_view(),
        requested.deep_view(),
    ));
}

/// Check a resolved config against what is already installed.
///
/// Deliberately *not* checked: `mode` itself. Switching overlay -> encrypted is
/// a mode change but not a datapath change, and the runtime-changeable fields
/// (encryption, LB/BGP, mtu, version, kube-proxy replacement) come along with
/// it. Only the datapath family is pinned.
pub fn check(cfg: &EffectiveConfig, status: Option<&NetworkStatus>) -> (r: Vec<Violation>)
    ensures
        r.deep_view() == violations(cfg.deep_view(), status.deep_view()),
{
    let mut out: Vec<Violation> = Vec::new();
    assert(out.deep_view() =~= seq![]);
    match status {
        None => out,
        Some(status) => {
            compare(
                &mut out,
                "spec.mode (datapath family)",
                &status.applied_datapath,
                cfg.routing.as_str(),
            );
            compare(&mut out, "spec.cilium.ipam.mode", &status.applied_ipam, cfg.ipam.as_str());
            compare_list(
                &mut out,
                "spec.clusterNetwork",
                &status.applied_cluster_network,
                &cfg.cluster_network,
            );
            compare_list(
                &mut out,
                "spec.serviceNetwork",
                &status.applied_service_network,
                &cfg.service_network,
            );
            assert(out.deep_view() =~= violations(cfg.deep_view(), Some(status.deep_view())));
            out
        },
    }
}

/// The status stanza recording what is installed, written after a successful
/// apply. This is what [`check`] compares against next time.
pub fn applied_from(cfg: &EffectiveConfig, status: &mut NetworkStatus)
    ensures
        final(status).deep_view() == baseline(cfg.deep_view(), old(status).deep_view()),
{
    let ghost before = status.deep_view();
    status.applied_mode = Some(cfg.mode.as_str().to_string());
    status.applied_version = Some(cfg.version.clone());
    status.applied_datapath = Some(cfg.routing.as_str().to_string());
    status.applied_ipam = Some(cfg.ipam.as_str().to_string());
    status.applied_cluster_network = clone_strings(&cfg.cluster_network);
    status.applied_service_network = clone_strings(&cfg.service_network);
    assert(status.deep_view() =~= baseline(cfg.deep_view(), before));
}

// --- laws ------------------------------------------------------------------

/// What an installed config may not change: two configs that agree here may
/// follow each other.
pub open spec fn same_plumbing(a: EffectiveConfigView, b: EffectiveConfigView) -> bool {
    &&& a.routing == b.routing
    &&& a.ipam == b.ipam
    &&& a.cluster_network == b.cluster_network
    &&& a.service_network == b.service_network
}

/// Before the first apply there is no baseline, and nothing is refused.
pub proof fn law_a_fresh_install_has_nothing_to_violate(cfg: EffectiveConfigView)
    ensures
        violations(cfg, None) == Seq::<ViolationView>::empty(),
        violations(cfg, Some(NetworkStatusView::unset())) == Seq::<ViolationView>::empty(),
{
    assert(violations(cfg, Some(NetworkStatusView::unset())) =~= Seq::empty());
}

/// Applying a config again is clean, whatever else the status holds.
pub proof fn law_reapplying_is_clean(cfg: EffectiveConfigView, status: NetworkStatusView)
    ensures
        violations(cfg, Some(baseline(cfg, status))) == Seq::<ViolationView>::empty(),
{
    assert(violations(cfg, Some(baseline(cfg, status))) =~= Seq::empty());
}

/// After a config with pod and service CIDRs is applied, another is let through
/// exactly if it keeps the datapath family, the IPAM mode and both networks:
/// mode, version, encryption, load balancing and the rest are free to change.
pub proof fn law_only_the_plumbing_is_pinned(
    installed: EffectiveConfigView,
    requested: EffectiveConfigView,
    status: NetworkStatusView,
)
    requires
        installed.cluster_network.len() > 0,
        installed.service_network.len() > 0,
    ensures
        violations(requested, Some(baseline(installed, status))).len() == 0 <==> same_plumbing(
            installed,
            requested,
        ),
{
    lemma_names_differ();
}

/// No two datapath families, and no two IPAM modes, go by one name.
proof fn lemma_names_differ()
    ensures
        "tunnel"@ != "native"@,
        "cluster-pool"@ != "kubernetes"@,
{
    reveal_strlit("tunnel");
    reveal_strlit("native");
    reveal_strlit("cluster-pool");
    reveal_strlit("kubernetes");
    assert("tunnel"@[0] != "native"@[0]);
    assert("cluster-pool"@[0] != "kubernetes"@[0]);
}

/// Each pinned choice that changes is reported: the number of violations is the
/// number of choices that differ from the baseline.
pub proof fn law_every_violation_is_reported(
    installed: EffectiveConfigView,
    requested: EffectiveConfigView,
    status: NetworkStatusView,
)
    requires
        installed.cluster_network.len() > 0,
        installed.service_network.len() > 0,
    ensures
        violations(requested, Some(baseline(installed, status))).len() == count(
            installed.routing != requested.routing,
        ) + count(installed.ipam != requested.ipam) + count(
            installed.cluster_network != requested.cluster_network,
        ) + count(installed.service_network != requested.service_network),
{
    lemma_names_differ();
}

/// One if it holds, otherwise none.
pub open spec fn count(holds: bool) -> int {
    if holds {
        1
    } else {
        0
    }
}

/// What is written down of an installed config, in the words of the manifest; of
/// the status nothing else changes.
pub proof fn law_the_baseline_is_the_config(cfg: EffectiveConfigView, status: NetworkStatusView)
    ensures
        ({
            let b = baseline(cfg, status);
            &&& b.applied_mode == Some(
                match cfg.mode {
                    Mode::Overlay => "overlay"@,
                    Mode::Native => "native"@,
                    Mode::Bgp => "bgp"@,
                    Mode::Encrypted => "encrypted"@,
                    Mode::BareMetal => "bare-metal"@,
                },
            )
            &&& b.applied_version == Some(cfg.version)
            &&& b.applied_datapath == Some(
                match cfg.routing {
                    RoutingMode::Tunnel => "tunnel"@,
                    RoutingMode::Native => "native"@,
                },
            )
            &&& b.applied_ipam == Some(
                match cfg.ipam {
                    IpamMode::ClusterPool => "cluster-pool"@,
                    IpamMode::Kubernetes => "kubernetes"@,
                },
            )
            &&& b.applied_cluster_network == cfg.cluster_network
            &&& b.applied_service_network == cfg.service_network
            &&& b.conditions == status.conditions
            &&& b.observed_generation == status.observed_generation
        }),
{
}

/// A violation names the field, what is applied and what was asked for instead. It
/// is there exactly if something is applied and something else asked for, and the
/// four come in one order.
pub proof fn law_what_the_violations_are(cfg: EffectiveConfigView, s: NetworkStatusView)
    ensures
        ({
            let routing = match cfg.routing {
                RoutingMode::Tunnel => "tunnel"@,
                RoutingMode::Native => "native"@,
            };
            let ipam = match cfg.ipam {
                IpamMode::ClusterPool => "cluster-pool"@,
                IpamMode::Kubernetes => "kubernetes"@,
            };
            let datapath_moves = s.applied_datapath is Some && s.applied_datapath->0 != routing;
            let ipam_moves = s.applied_ipam is Some && s.applied_ipam->0 != ipam;
            let pods_move = s.applied_cluster_network.len() > 0 && s.applied_cluster_network
                != cfg.cluster_network;
            let services_move = s.applied_service_network.len() > 0 && s.applied_service_network
                != cfg.service_network;
            let found = violations(cfg, Some(s));
            let d = count(datapath_moves);
            let i = d + count(ipam_moves);
            let p = i + count(pods_move);
            &&& found.len() == p + count(services_move)
            &&& datapath_moves ==> found[0] == (ViolationView {
                field: "spec.mode (datapath family)"@,
                applied: s.applied_datapath->0,
                requested: routing,
            })
            &&& ipam_moves ==> found[d] == (ViolationView {
                field: "spec.cilium.ipam.mode"@,
                applied: s.applied_ipam->0,
                requested: ipam,
            })
            &&& pods_move ==> found[i] == (ViolationView {
                field: "spec.clusterNetwork"@,
                applied: joined(s.applied_cluster_network, ","@),
                requested: joined(cfg.cluster_network, ","@),
            })
            &&& services_move ==> found[p] == (ViolationView {
                field: "spec.serviceNetwork"@,
                applied: joined(s.applied_service_network, ","@),
                requested: joined(cfg.service_network, ","@),
            })
        }),
{
}

/// A violation in one line.
pub proof fn law_how_a_violation_reads(v: ViolationView)
    ensures
        v.line() == v.field + " is immutable after install (applied "@ + v.applied
            + ", requested "@ + v.requested + ")"@,
{
}

} // verus!
