//! LoadBalancer support: LB-IPAM pools plus the announcement mechanism that
//! makes the allocated VIPs reachable — L2/ARP or BGP.
//!
//! These are Cilium's *own* CRs, so their CRDs only exist once `cilium-operator`
//! has installed them. The reconciler applies this group last and treats a
//! missing CRD as "not yet", not as a failure.

use vstd::prelude::*;

use crate::crd::Announce;
use crate::modes::{EffectiveConfig, EffectiveConfigView};
use crate::render::metadata::cluster_meta;
use crate::render::object::{custom, Rendered, RenderedView};
use crate::render::value::{boolean, list, member, number, object, text, Value, ValueView};
use crate::render::version::minor;
use crate::text::{cat, dash_separators, signed_decimal_string};

verus! {

use crate::render::metadata::cluster_meta_view;
use crate::render::object::custom_view;
use crate::render::version::minor_of;
use crate::text::{dashed, signed_decimal};

/// The API group of Cilium's CRs.
pub const CILIUM_GROUP: &'static str = "cilium.io";

/// Cilium promoted the LB-IPAM and BGP v2 CRs from `v2alpha1` to `v2` in 1.17.
/// Anything older still has to be addressed at the alpha group version.
pub const V2_SINCE_MINOR: u32 = 17;

pub const POOL_NAME: &'static str = "storm-default";

pub const BGP_CLUSTER_CONFIG: &'static str = "storm";

pub const BGP_PEER_CONFIG: &'static str = "storm-peers";

pub const BGP_ADVERTISEMENT: &'static str = "storm-advertisements";

/// Ties `CiliumBGPPeerConfig` to `CiliumBGPAdvertisement` by label.
pub const ADVERTISE_LABEL_KEY: &'static str = "advertise";

pub const ADVERTISE_LABEL_VALUE: &'static str = "storm";

// --- group version ---------------------------------------------------------

/// The group version of the pool and BGP CRs of a Cilium version.
pub open spec fn api_version_of(version: Seq<char>) -> Seq<char> {
    match minor_of(version) {
        Some(m) if m < V2_SINCE_MINOR => "v2alpha1"@,
        _ => "v2"@,
    }
}

/// The `cilium.io` group version to address these CRs at, for the Cilium
/// version being installed.
pub fn api_version(cfg: &EffectiveConfig) -> (r: &'static str)
    ensures
        r@ == api_version_of(cfg.version@),
{
    match minor(cfg.version.as_str()) {
        Some(m) => {
            if m < V2_SINCE_MINOR {
                "v2alpha1"
            } else {
                "v2"
            }
        },
        None => "v2",
    }
}

// --- pool ------------------------------------------------------------------

/// A block of a pool.
pub open spec fn block_view(cidr: Seq<char>) -> ValueView {
    ValueView::Object(seq![("cidr"@, ValueView::Text(cidr))])
}

/// The pool: one block for each CIDR.
pub open spec fn pool_spec_view(cfg: EffectiveConfigView) -> ValueView {
    ValueView::Object(
        seq![("blocks"@, ValueView::List(cfg.lb_pools.map_values(|c: Seq<char>| block_view(c))))],
    )
}

/// The pool, ready to apply.
pub open spec fn pool_view(cfg: EffectiveConfigView) -> RenderedView {
    custom_view(
        CILIUM_GROUP@,
        api_version_of(cfg.version),
        "CiliumLoadBalancerIPPool"@,
        "ciliumloadbalancerippools"@,
        cluster_meta_view(cfg, POOL_NAME@, seq![]),
        pool_spec_view(cfg),
    )
}

fn blocks(pools: &Vec<String>) -> (r: Vec<Value>)
    ensures
        r.deep_view() == pools.deep_view().map_values(|c: Seq<char>| block_view(c)),
{
    let mut out: Vec<Value> = Vec::new();
    let mut i: usize = 0;
    while i < pools.len()
        invariant
            i <= pools.len(),
            out@.len() == i,
            forall|j: int|
                0 <= j < i ==> (#[trigger] out@[j]).deep_view() == block_view(pools@[j]@),
        decreases pools.len() - i,
    {
        let members = vec![member("cidr", text(pools[i].as_str()))];
        assert(members.deep_view() =~= seq![("cidr"@, ValueView::Text(pools@[i as int]@))]);
        out.push(object(members));
        i = i + 1;
    }
    assert(out.deep_view() =~= pools.deep_view().map_values(|c: Seq<char>| block_view(c)));
    out
}

/// The pool, ready to apply.
pub fn pool(cfg: &EffectiveConfig) -> (r: Rendered)
    ensures
        r.deep_view() == pool_view(cfg.deep_view()),
{
    let members = vec![member("blocks", list(blocks(&cfg.lb_pools)))];
    let spec = object(members);
    assert(spec.deep_view() =~= pool_spec_view(cfg.deep_view())) by {
        assert(members.deep_view() =~= pool_spec_view(cfg.deep_view())->Object_0);
    }
    custom(
        CILIUM_GROUP,
        api_version(cfg),
        "CiliumLoadBalancerIPPool",
        "ciliumloadbalancerippools",
        cluster_meta(cfg, POOL_NAME, &[]),
        spec,
    )
}

// --- L2 --------------------------------------------------------------------

/// A selector that everything matches.
pub open spec fn select_all_view() -> ValueView {
    ValueView::Object(seq![("matchLabels"@, ValueView::Object(seq![]))])
}

fn select_all() -> (r: Value)
    ensures
        r.deep_view() == select_all_view(),
{
    let none: Vec<(String, Value)> = Vec::new();
    assert(none.deep_view() =~= seq![]);
    let members = vec![member("matchLabels", object(none))];
    assert(members.deep_view() =~= seq![("matchLabels"@, ValueView::Object(seq![]))]);
    object(members)
}

/// The announcements: every node, and every LoadBalancer Service.
pub open spec fn l2_spec_view() -> ValueView {
    ValueView::Object(
        seq![
            ("nodeSelector"@, select_all_view()),
            ("serviceSelector"@, select_all_view()),
            ("externalIPs"@, ValueView::Bool(true)),
            ("loadBalancerIPs"@, ValueView::Bool(true)),
        ],
    )
}

/// The L2 policy, ready to apply.
pub open spec fn l2_policy_view(cfg: EffectiveConfigView) -> RenderedView {
    custom_view(
        CILIUM_GROUP@,
        "v2alpha1"@,
        "CiliumL2AnnouncementPolicy"@,
        "ciliuml2announcementpolicies"@,
        cluster_meta_view(cfg, POOL_NAME@, seq![]),
        l2_spec_view(),
    )
}

/// L2 announcements are still an alpha API — they were not part of the v2
/// promotion that took the LB pool and BGP CRs, so this one ignores
/// [`api_version`] and pins itself.
pub fn l2_policy(cfg: &EffectiveConfig) -> (r: Rendered)
    ensures
        r.deep_view() == l2_policy_view(cfg.deep_view()),
{
    let members = vec![
        member("nodeSelector", select_all()),
        member("serviceSelector", select_all()),
        member("externalIPs", boolean(true)),
        member("loadBalancerIPs", boolean(true)),
    ];
    assert(members.deep_view() =~= l2_spec_view()->Object_0);
    custom(
        CILIUM_GROUP,
        "v2alpha1",
        "CiliumL2AnnouncementPolicy",
        "ciliuml2announcementpolicies",
        cluster_meta(cfg, POOL_NAME, &[]),
        object(members),
    )
}

// --- BGP -------------------------------------------------------------------

/// A neighbour, under a name that is safe in DNS.
pub open spec fn peer_view(peer: (Seq<char>, i64)) -> ValueView {
    ValueView::Object(
        seq![
            ("name"@, ValueView::Text("peer-"@ + dashed(peer.0))),
            ("peerAddress"@, ValueView::Text(peer.0)),
            ("peerASN"@, ValueView::Int(peer.1)),
            (
                "peerConfigRef"@,
                ValueView::Object(seq![("name"@, ValueView::Text(BGP_PEER_CONFIG@))]),
            ),
        ],
    )
}

fn peer(address: &str, asn: i64) -> (r: Value)
    ensures
        r.deep_view() == peer_view((address@, asn)),
{
    let reference = vec![member("name", text(BGP_PEER_CONFIG))];
    assert(reference.deep_view() =~= seq![("name"@, ValueView::Text(BGP_PEER_CONFIG@))]);
    let name = cat("peer-", dash_separators(address).as_str());
    let members = vec![
        member("name", text(name.as_str())),
        member("peerAddress", text(address)),
        member("peerASN", number(asn)),
        member("peerConfigRef", object(reference)),
    ];
    assert(members.deep_view() =~= peer_view((address@, asn))->Object_0);
    object(members)
}

fn peers(list: &Vec<(String, i64)>) -> (r: Vec<Value>)
    ensures
        r.deep_view() == list.deep_view().map_values(|p: (Seq<char>, i64)| peer_view(p)),
{
    let mut out: Vec<Value> = Vec::new();
    let mut i: usize = 0;
    while i < list.len()
        invariant
            i <= list.len(),
            out@.len() == i,
            forall|j: int|
                0 <= j < i ==> (#[trigger] out@[j]).deep_view() == peer_view(list@[j].deep_view()),
        decreases list.len() - i,
    {
        out.push(peer(list[i].0.as_str(), list[i].1));
        i = i + 1;
    }
    assert(out.deep_view() =~= list.deep_view().map_values(
        |p: (Seq<char>, i64)| peer_view(p),
    ));
    out
}

/// The one instance, with all its neighbours.
pub open spec fn instance_view(cfg: EffectiveConfigView) -> ValueView {
    ValueView::Object(
        seq![
            ("name"@, ValueView::Text("asn"@ + signed_decimal(cfg.bgp_local_asn as int))),
            ("localASN"@, ValueView::Int(cfg.bgp_local_asn)),
            (
                "peers"@,
                ValueView::List(cfg.bgp_peers.map_values(|p: (Seq<char>, i64)| peer_view(p))),
            ),
        ],
    )
}

fn instance(cfg: &EffectiveConfig) -> (r: Value)
    ensures
        r.deep_view() == instance_view(cfg.deep_view()),
{
    let name = cat("asn", signed_decimal_string(cfg.bgp_local_asn).as_str());
    let members = vec![
        member("name", text(name.as_str())),
        member("localASN", number(cfg.bgp_local_asn)),
        member("peers", list(peers(&cfg.bgp_peers))),
    ];
    assert(members.deep_view() =~= instance_view(cfg.deep_view())->Object_0);
    object(members)
}

/// The cluster config. No node selector: every node peers, which is what gives
/// the fabric ECMP paths to the pod CIDRs.
pub open spec fn bgp_cluster_view(cfg: EffectiveConfigView) -> RenderedView {
    custom_view(
        CILIUM_GROUP@,
        api_version_of(cfg.version),
        "CiliumBGPClusterConfig"@,
        "ciliumbgpclusterconfigs"@,
        cluster_meta_view(cfg, BGP_CLUSTER_CONFIG@, seq![]),
        ValueView::Object(seq![("bgpInstances"@, ValueView::List(seq![instance_view(cfg)]))]),
    )
}

/// The cluster config, ready to apply.
pub fn bgp_cluster(cfg: &EffectiveConfig) -> (r: Rendered)
    ensures
        r.deep_view() == bgp_cluster_view(cfg.deep_view()),
{
    let instances = vec![instance(cfg)];
    assert(instances.deep_view() =~= seq![instance_view(cfg.deep_view())]);
    let members = vec![member("bgpInstances", list(instances))];
    assert(members.deep_view() =~= seq![
        ("bgpInstances"@, ValueView::List(seq![instance_view(cfg.deep_view())])),
    ]);
    custom(
        CILIUM_GROUP,
        api_version(cfg),
        "CiliumBGPClusterConfig",
        "ciliumbgpclusterconfigs",
        cluster_meta(cfg, BGP_CLUSTER_CONFIG, &[]),
        object(members),
    )
}

/// A selector of the advertisement.
pub open spec fn advertised_view() -> ValueView {
    ValueView::Object(
        seq![
            (
                "matchLabels"@,
                ValueView::Object(
                    seq![(ADVERTISE_LABEL_KEY@, ValueView::Text(ADVERTISE_LABEL_VALUE@))],
                ),
            ),
        ],
    )
}

fn advertised() -> (r: Value)
    ensures
        r.deep_view() == advertised_view(),
{
    let labels = vec![member(ADVERTISE_LABEL_KEY, text(ADVERTISE_LABEL_VALUE))];
    assert(labels.deep_view() =~= seq![
        (ADVERTISE_LABEL_KEY@, ValueView::Text(ADVERTISE_LABEL_VALUE@)),
    ]);
    let members = vec![member("matchLabels", object(labels))];
    assert(members.deep_view() =~= advertised_view()->Object_0);
    object(members)
}

/// IPv4 unicast, with what is advertised.
pub open spec fn family_view() -> ValueView {
    ValueView::Object(
        seq![
            ("afi"@, ValueView::Text("ipv4"@)),
            ("safi"@, ValueView::Text("unicast"@)),
            ("advertisements"@, advertised_view()),
        ],
    )
}

/// What the peers have in common.
pub open spec fn bgp_peer_config_view(cfg: EffectiveConfigView) -> RenderedView {
    custom_view(
        CILIUM_GROUP@,
        api_version_of(cfg.version),
        "CiliumBGPPeerConfig"@,
        "ciliumbgppeerconfigs"@,
        cluster_meta_view(cfg, BGP_PEER_CONFIG@, seq![]),
        ValueView::Object(seq![("families"@, ValueView::List(seq![family_view()]))]),
    )
}

/// What the peers have in common, ready to apply.
pub fn bgp_peer_config(cfg: &EffectiveConfig) -> (r: Rendered)
    ensures
        r.deep_view() == bgp_peer_config_view(cfg.deep_view()),
{
    let family = vec![
        member("afi", text("ipv4")),
        member("safi", text("unicast")),
        member("advertisements", advertised()),
    ];
    assert(family.deep_view() =~= family_view()->Object_0);
    let families = vec![object(family)];
    assert(families.deep_view() =~= seq![family_view()]);
    let members = vec![member("families", list(families))];
    assert(members.deep_view() =~= seq![("families"@, ValueView::List(seq![family_view()]))]);
    custom(
        CILIUM_GROUP,
        api_version(cfg),
        "CiliumBGPPeerConfig",
        "ciliumbgppeerconfigs",
        cluster_meta(cfg, BGP_PEER_CONFIG, &[]),
        object(members),
    )
}

/// The pod CIDRs.
pub open spec fn advertise_pods_view() -> ValueView {
    ValueView::Object(seq![("advertisementType"@, ValueView::Text("PodCIDR"@))])
}

fn advertise_pods() -> (r: Value)
    ensures
        r.deep_view() == advertise_pods_view(),
{
    let members = vec![member("advertisementType", text("PodCIDR"))];
    assert(members.deep_view() =~= advertise_pods_view()->Object_0);
    object(members)
}

/// The VIPs of every Service.
pub open spec fn advertise_services_view() -> ValueView {
    ValueView::Object(
        seq![
            ("advertisementType"@, ValueView::Text("Service"@)),
            (
                "service"@,
                ValueView::Object(
                    seq![
                        (
                            "addresses"@,
                            ValueView::List(seq![ValueView::Text("LoadBalancerIP"@)]),
                        ),
                    ],
                ),
            ),
            ("selector"@, select_all_view()),
        ],
    )
}

fn advertise_services() -> (r: Value)
    ensures
        r.deep_view() == advertise_services_view(),
{
    let addresses = vec![text("LoadBalancerIP")];
    assert(addresses.deep_view() =~= seq![ValueView::Text("LoadBalancerIP"@)]);
    let service = vec![member("addresses", list(addresses))];
    assert(service.deep_view() =~= seq![
        ("addresses"@, ValueView::List(seq![ValueView::Text("LoadBalancerIP"@)])),
    ]);
    let members = vec![
        member("advertisementType", text("Service")),
        member("service", object(service)),
        member("selector", select_all()),
    ];
    assert(members.deep_view() =~= advertise_services_view()->Object_0);
    object(members)
}

/// Everything that is advertised: the pod CIDRs and the VIPs.
pub open spec fn bgp_advertisement_view(cfg: EffectiveConfigView) -> RenderedView {
    custom_view(
        CILIUM_GROUP@,
        api_version_of(cfg.version),
        "CiliumBGPAdvertisement"@,
        "ciliumbgpadvertisements"@,
        cluster_meta_view(
            cfg,
            BGP_ADVERTISEMENT@,
            seq![(ADVERTISE_LABEL_KEY@, ADVERTISE_LABEL_VALUE@)],
        ),
        ValueView::Object(
            seq![
                (
                    "advertisements"@,
                    ValueView::List(seq![advertise_pods_view(), advertise_services_view()]),
                ),
            ],
        ),
    )
}

/// Everything that is advertised, ready to apply.
pub fn bgp_advertisement(cfg: &EffectiveConfig) -> (r: Rendered)
    ensures
        r.deep_view() == bgp_advertisement_view(cfg.deep_view()),
{
    let advertisements = vec![advertise_pods(), advertise_services()];
    assert(advertisements.deep_view() =~= seq![advertise_pods_view(), advertise_services_view()]);
    let members = vec![member("advertisements", list(advertisements))];
    assert(members.deep_view() =~= seq![
        (
            "advertisements"@,
            ValueView::List(seq![advertise_pods_view(), advertise_services_view()]),
        ),
    ]);
    let labels = [(ADVERTISE_LABEL_KEY, ADVERTISE_LABEL_VALUE)];
    assert(labels.deep_view() =~= seq![(ADVERTISE_LABEL_KEY@, ADVERTISE_LABEL_VALUE@)]);
    custom(
        CILIUM_GROUP,
        api_version(cfg),
        "CiliumBGPAdvertisement",
        "ciliumbgpadvertisements",
        cluster_meta(cfg, BGP_ADVERTISEMENT, &labels),
        object(members),
    )
}

/// Announcing over BGP.
pub open spec fn bgp_view(cfg: EffectiveConfigView) -> Seq<RenderedView> {
    seq![bgp_cluster_view(cfg), bgp_peer_config_view(cfg), bgp_advertisement_view(cfg)]
}

// --- all of it -------------------------------------------------------------

/// The CRs of a config: a pool with LB-IPAM, and what announces it.
pub open spec fn render_view(cfg: EffectiveConfigView) -> Seq<RenderedView> {
    if !cfg.lb_ipam {
        seq![]
    } else {
        match cfg.announce {
            Announce::Off => seq![pool_view(cfg)],
            Announce::L2 => seq![pool_view(cfg), l2_policy_view(cfg)],
            Announce::Bgp => seq![pool_view(cfg)] + bgp_view(cfg),
        }
    }
}

/// The CRs of a config, ready to apply.
pub fn render(cfg: &EffectiveConfig) -> (r: Vec<Rendered>)
    ensures
        r.deep_view() == render_view(cfg.deep_view()),
{
    let mut out: Vec<Rendered> = Vec::new();
    if cfg.lb_ipam {
        out.push(pool(cfg));
        match cfg.announce {
            Announce::Off => {},
            Announce::L2 => {
                out.push(l2_policy(cfg));
            },
            Announce::Bgp => {
                out.push(bgp_cluster(cfg));
                out.push(bgp_peer_config(cfg));
                out.push(bgp_advertisement(cfg));
            },
        }
    }
    assert(out.deep_view() =~= render_view(cfg.deep_view()));
    out
}

/// A config with LB-IPAM on, whatever it says itself.
pub open spec fn with_lb_ipam(cfg: EffectiveConfigView) -> EffectiveConfigView {
    EffectiveConfigView { lb_ipam: true, lb_pools: seq!["0.0.0.0/32"@], ..cfg }
}

/// Every CR that *any* config would render, whether or not this one does, in the
/// order of their ids.
pub open spec fn all_variants_view(cfg: EffectiveConfigView) -> Seq<RenderedView> {
    let c = with_lb_ipam(cfg);
    seq![
        bgp_advertisement_view(c),
        bgp_cluster_view(c),
        bgp_peer_config_view(c),
        l2_policy_view(c),
        pool_view(c),
    ]
}

/// Every LB/BGP object *any* config would render, whether or not this one does.
/// Only the kind and name are meaningful — the caller uses these to find and
/// delete objects a previous config left behind.
pub fn all_variants(cfg: &EffectiveConfig) -> (r: Vec<Rendered>)
    ensures
        r.deep_view() == all_variants_view(cfg.deep_view()),
{
    let mut c = cfg.clone();
    c.lb_ipam = true;
    c.lb_pools = vec!["0.0.0.0/32".to_string()];
    assert(c.deep_view() =~~= with_lb_ipam(cfg.deep_view()));
    let out = vec![
        bgp_advertisement(&c),
        bgp_cluster(&c),
        bgp_peer_config(&c),
        l2_policy(&c),
        pool(&c),
    ];
    assert(out.deep_view() =~= all_variants_view(cfg.deep_view()));
    out
}

} // verus!
