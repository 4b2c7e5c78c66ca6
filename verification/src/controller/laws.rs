//! What holds of every pass.

use vstd::prelude::*;

use crate::apply::ApplyErrorView;
use crate::controller::{BaseView, ErrorView, EventView, PassView, DEFERRED_RETRY, RESYNC};
use crate::crd::Announce;
use crate::crd::conditions::{AVAILABLE, DEGRADED};
use crate::crd::{NetworkSpecView, NetworkStatusView, NetworkView};
use crate::health::SnapshotView;
use crate::immutable::ViolationView;
use crate::k8s::meta::Time;
use crate::kube_error::KubeErrorView;
use crate::modes::validation::ValidationErrorView;
use crate::modes::EffectiveConfigView;
use crate::render::RenderedView;

verus! {

use crate::controller::{
    base_of, decision, failure_status, first_pass, has_id, next_pass, stale_among, success_status,
    wait_after,
};
use crate::health::{conditions_view, holds, law_available, law_degraded};
use crate::immutable::{
    baseline, law_only_the_plumbing_is_pinned, law_reapplying_is_clean, same_plumbing, violations,
};
use crate::modes::laws::law_resolves_iff_installable;
use crate::modes::validation::violation_of;
use crate::modes::{effective, effective_network};
use crate::render::laws::reaping::law_every_cr_is_reapable;
use crate::render::laws::{law_the_ids_of_the_crs, law_which_crs_are_rendered};
use crate::render::lb::all_variants_view;
use crate::render::{cilium_cr, render_view};
use crate::text::joined;

// --- the course of a pass --------------------------------------------------

/// A pass waits for this event.
pub open spec fn awaits(pass: PassView, event: EventView) -> bool {
    match pass {
        PassView::Apply { .. } => event is Applied,
        PassView::Reap { .. } => event is Reaped,
        PassView::Observe { .. } => event is Observed,
        PassView::Explain { .. } => event is Observed,
        PassView::Report { .. } => event is Written,
        PassView::Finished { .. } => false,
    }
}

/// How much of a pass is left.
pub open spec fn rank(pass: PassView) -> nat {
    match pass {
        PassView::Apply { .. } => 5,
        PassView::Reap { .. } => 4,
        PassView::Observe { .. } => 3,
        PassView::Explain { .. } => 2,
        PassView::Report { .. } => 1,
        PassView::Finished { .. } => 0,
    }
}

/// Whatever the cluster answers, a pass comes to an end.
pub proof fn law_a_pass_ends(pass: PassView, event: EventView, now: Time)
    ensures
        awaits(pass, event) ==> rank(next_pass(pass, event, now)) < rank(pass),
        !awaits(pass, event) ==> next_pass(pass, event, now) == pass,
{
}

/// Objects are applied exactly if the spec is valid and changes nothing that is
/// immutable, and they are those that the config renders.
pub proof fn law_nothing_is_applied_unless_it_may_be(net: NetworkView)
    ensures
        first_pass(net) is Apply <==> violation_of(effective(net.spec)) is None && violations(
            effective_network(net),
            net.status,
        ).len() == 0,
        first_pass(net) matches PassView::Apply { base, cfg, objects } ==> cfg
            == effective_network(net) && objects == render_view(cfg),
{
}

/// Only a pass that has applied everything, then reaped everything, and then seen
/// the install reports success.
pub proof fn law_success_follows_apply_reap_and_observe(
    pass: PassView,
    event: EventView,
    now: Time,
)
    requires
        awaits(pass, event),
    ensures
        next_pass(pass, event, now) is Reap ==> pass is Apply && (event matches EventView::Applied(
            Ok(_),
        )),
        next_pass(pass, event, now) is Observe ==> pass is Reap && (event matches EventView::Reaped(
            Ok(_),
        )),
        next_pass(pass, event, now) matches PassView::Report { outcome: Ok(_), .. } ==> pass
            is Observe && (event matches EventView::Observed(Ok(_))),
        !(next_pass(pass, event, now) is Apply),
{
}

/// After a success the next pass comes after a minute, or sooner while CRs are
/// put off.
pub proof fn law_the_next_pass_is_sooner_while_crs_are_put_off(
    pass: PassView,
    event: EventView,
    now: Time,
)
    requires
        awaits(pass, event),
    ensures
        next_pass(pass, event, now) matches PassView::Report { outcome: Ok(seconds), .. }
            ==> seconds == if pass->Observe_deferred.len() == 0 {
            RESYNC
        } else {
            DEFERRED_RETRY
        },
{
}

/// A pass starts from the name, the status and the generation that the `Network`
/// has, and one that is refused says why: the first broken rule where the spec is
/// not valid, and otherwise every immutable choice that it changes.
pub proof fn law_a_pass_starts_from_the_network(net: NetworkView)
    ensures
        ({
            let base = match first_pass(net) {
                PassView::Apply { base, .. } => base,
                _ => first_pass(net)->Explain_base,
            };
            &&& first_pass(net) is Apply || first_pass(net) is Explain
            &&& net.metadata.name matches Some(name) ==> base.name == name
            &&& net.metadata.name is None ==> base.name == ""@
            &&& net.status matches Some(status) ==> base.previous == status
            &&& net.status is None ==> {
                &&& base.previous.conditions.len() == 0
                &&& base.previous.observed_generation is None
                &&& base.previous.applied_mode is None && base.previous.applied_version is None
                &&& base.previous.applied_datapath is None && base.previous.applied_ipam is None
                &&& base.previous.applied_cluster_network.len() == 0
                &&& base.previous.applied_service_network.len() == 0
            }
            &&& net.metadata.generation matches Some(generation) ==> base.generation == generation
            &&& net.metadata.generation is None ==> base.generation == 0
        }),
        first_pass(net) is Explain ==> {
            let error = first_pass(net)->Explain_error;
            match violation_of(effective(net.spec)) {
                Some(e) => error == ErrorView::Invalid(e),
                None => {
                    let found = violations(effective_network(net), net.status);
                    &&& error == ErrorView::Immutable(
                        joined(found.map_values(|v: ViolationView| v.line()), "; "@),
                    )
                    &&& found.len() > 0
                },
            }
        },
{
}

/// A step that fails ends the pass with its error: at once, but for a failed
/// apply, which is first written to the CR.
pub proof fn law_a_failed_step_is_the_outcome(
    base: BaseView,
    cfg: EffectiveConfigView,
    objects: Seq<RenderedView>,
    deferred: Seq<Seq<char>>,
    now: Time,
    failure: ApplyErrorView,
    refusal: KubeErrorView,
)
    ensures
        next_pass(
            PassView::Apply { base, cfg, objects },
            EventView::Applied(Err(failure)),
            now,
        ) == (PassView::Explain { base, error: ErrorView::Apply(failure) }),
        next_pass(
            PassView::Reap { base, cfg, deferred, stale: objects },
            EventView::Reaped(Err(failure)),
            now,
        ) == (PassView::Finished { outcome: Err(ErrorView::Apply(failure)) }),
        next_pass(
            PassView::Observe { base, cfg, deferred },
            EventView::Observed(Err(refusal)),
            now,
        ) == (PassView::Finished { outcome: Err(ErrorView::Kube(refusal)) }),
{
}

/// A pass is over once its status is written, with the outcome it had; a status
/// that cannot be written is an error of its own.
pub proof fn law_writing_ends_the_pass(
    name: Seq<char>,
    status: NetworkStatusView,
    outcome: Result<u64, ErrorView>,
    now: Time,
    refusal: KubeErrorView,
)
    ensures
        next_pass(
            PassView::Report { name, status, outcome },
            EventView::Written(Ok(())),
            now,
        ) == (PassView::Finished { outcome }),
        next_pass(
            PassView::Report { name, status, outcome },
            EventView::Written(Err(refusal)),
            now,
        ) == (PassView::Finished { outcome: Err(ErrorView::Kube(refusal)) }),
{
}

/// What was put off while applying is carried to the report: it is what the
/// conditions speak of, and it brings the next pass forward from 60 seconds to
/// 10. A failed pass comes back after 15.
pub proof fn law_what_is_put_off_is_reported(
    base: BaseView,
    cfg: EffectiveConfigView,
    objects: Seq<RenderedView>,
    deferred: Seq<Seq<char>>,
    seen: SnapshotView,
    now: Time,
)
    ensures
        ({
            let reaping = next_pass(
                PassView::Apply { base, cfg, objects },
                EventView::Applied(Ok(deferred)),
                now,
            );
            let observing = next_pass(reaping, EventView::Reaped(Ok(())), now);
            let reporting = next_pass(observing, EventView::Observed(Ok(seen)), now);
            &&& reaping is Reap
            &&& observing == (PassView::Observe { base, cfg, deferred })
            &&& reporting is Report
            &&& reporting->Report_name == base.name
            &&& reporting->Report_status.observed_generation == Some(base.generation)
            &&& reporting->Report_status.conditions == conditions_view(
                base.previous.conditions,
                (SnapshotView { deferred, ..seen }),
                base.generation,
                now,
            )
            &&& deferred.len() == 0 ==> reporting->Report_outcome == Ok::<u64, ErrorView>(60)
            &&& deferred.len() > 0 ==> reporting->Report_outcome == Ok::<u64, ErrorView>(10)
        }),
        forall|e: ErrorView| #[trigger] wait_after(Err(e)) == 15,
        forall|seconds: u64| #[trigger] wait_after(Ok(seconds)) == seconds,
{
}

// --- the baseline ----------------------------------------------------------

/// The same is installed, as far as the status says.
pub open spec fn same_baseline(a: NetworkStatusView, b: NetworkStatusView) -> bool {
    &&& a.applied_mode == b.applied_mode
    &&& a.applied_version == b.applied_version
    &&& a.applied_datapath == b.applied_datapath
    &&& a.applied_ipam == b.applied_ipam
    &&& a.applied_cluster_network == b.applied_cluster_network
    &&& a.applied_service_network == b.applied_service_network
}

/// A failed pass leaves the baseline where it was.
pub proof fn law_a_failure_keeps_the_baseline(
    base: BaseView,
    error: ErrorView,
    event: EventView,
    now: Time,
)
    requires
        event is Observed,
    ensures
        next_pass(PassView::Explain { base, error }, event, now) matches PassView::Report {
            name,
            status,
            outcome,
        } && same_baseline(status, base.previous) && outcome == Err::<u64, _>(error) && name
            == base.name,
{
}

/// A successful pass moves the baseline to what it has installed.
pub proof fn law_a_success_moves_the_baseline(
    base: BaseView,
    cfg: EffectiveConfigView,
    deferred: Seq<Seq<char>>,
    seen: SnapshotView,
    now: Time,
)
    ensures
        next_pass(
            PassView::Observe { base, cfg, deferred },
            EventView::Observed(Ok(seen)),
            now,
        ) matches PassView::Report { status, outcome, .. } && outcome is Ok && same_baseline(
            status,
            baseline(cfg, base.previous),
        ),
{
}

/// Once a config is installed and reported, the same spec is installed again.
pub proof fn law_an_installed_spec_is_accepted_again(
    net: NetworkView,
    seen: SnapshotView,
    now: Time,
)
    requires
        decision(net) is Ok,
    ensures
        ({
            let cfg = decision(net)->Ok_0;
            let reported = NetworkView {
                status: Some(success_status(base_of(net), cfg, seen, now)),
                ..net
            };
            decision(reported) == decision(net)
        }),
{
    let cfg = decision(net)->Ok_0;
    let status = success_status(base_of(net), cfg, seen, now);
    law_reapplying_is_clean(cfg, base_of(net).previous);
    assert(violations(cfg, Some(status)) == violations(
        cfg,
        Some(baseline(cfg, base_of(net).previous)),
    ));
}

/// Once a config is installed and reported, an edit of the spec goes through
/// exactly if it is valid and keeps the datapath family, the IPAM mode and both
/// networks. Everything else may change under the running install.
pub proof fn law_an_edit_goes_through_iff_the_plumbing_stays(
    net: NetworkView,
    edited: NetworkSpecView,
    seen: SnapshotView,
    now: Time,
)
    requires
        decision(net) is Ok,
    ensures
        ({
            let cfg = decision(net)->Ok_0;
            let after = NetworkView {
                spec: edited,
                status: Some(success_status(base_of(net), cfg, seen, now)),
                ..net
            };
            decision(after) is Ok <==> violation_of(effective(edited)) is None && same_plumbing(
                cfg,
                effective(edited),
            )
        }),
{
    let cfg = decision(net)->Ok_0;
    let status = success_status(base_of(net), cfg, seen, now);
    let after = NetworkView { spec: edited, status: Some(status), ..net };
    let previous = base_of(net).previous;
    law_resolves_iff_installable(net.spec);
    assert(cfg.cluster_network.len() > 0 && cfg.service_network.len() > 0);
    law_only_the_plumbing_is_pinned(cfg, effective_network(after), previous);
    assert(violations(effective_network(after), Some(status)) == violations(
        effective_network(after),
        Some(baseline(cfg, previous)),
    ));
}

/// Reporting a failure does not make a refused change go through, nor a good one
/// be refused: the next pass decides as this one did.
pub proof fn law_reporting_a_failure_changes_no_decision(
    net: NetworkView,
    message: Seq<char>,
    seen: SnapshotView,
    now: Time,
)
    ensures
        ({
            let reported = NetworkView {
                status: Some(failure_status(base_of(net), message, seen, now)),
                ..net
            };
            decision(reported) == decision(net)
        }),
{
    let status = failure_status(base_of(net), message, seen, now);
    let cfg = effective_network(net);
    assert(violations(cfg, Some(status)) =~= violations(cfg, net.status));
}

// --- what is reported ------------------------------------------------------

/// A failure of resolving, checking or applying is written to the CR as
/// `Degraded` with its cause, while `Available` goes on saying what runs.
pub proof fn law_a_failure_is_reported(
    base: BaseView,
    error: ErrorView,
    observed: SnapshotView,
    now: Time,
)
    ensures
        next_pass(
            PassView::Explain { base, error },
            EventView::Observed(Ok(observed)),
            now,
        ) matches PassView::Report { status, .. } && {
            &&& holds(status.conditions, DEGRADED@)
            &&& status.conditions[2].reason == "ReconcileFailed"@
            &&& status.conditions[2].message == error.recorded()
            &&& holds(status.conditions, AVAILABLE@) == holds(
                conditions_view(base.previous.conditions, observed, base.generation, now),
                AVAILABLE@,
            )
            &&& status.observed_generation == Some(base.generation)
        },
{
    let prev = base.previous.conditions;
    let failed = SnapshotView { failure: Some(error.recorded()), ..observed };
    law_degraded(prev, failed, base.generation, now);
    law_available(prev, failed, base.generation, now);
    law_available(prev, observed, base.generation, now);
}

// --- reaping ---------------------------------------------------------------

proof fn lemma_filter<A>(s: Seq<A>, pred: spec_fn(A) -> bool)
    ensures
        forall|i: int| 0 <= i < s.filter(pred).len() ==> pred(#[trigger] s.filter(pred)[i]),
        forall|i: int|
            0 <= i < s.filter(pred).len() ==> s.contains(#[trigger] s.filter(pred)[i]),
        forall|i: int| 0 <= i < s.len() && pred(#[trigger] s[i]) ==> s.filter(pred).contains(s[i]),
    decreases s.len(),
{
    reveal(Seq::filter);
    if s.len() > 0 {
        let fewer = s.drop_last();
        let kept = s.filter(pred);
        lemma_filter(fewer, pred);
        assert forall|i: int| 0 <= i < kept.len() implies s.contains(#[trigger] kept[i]) by {
            if i < fewer.filter(pred).len() {
                assert(kept[i] == fewer.filter(pred)[i]);
                let j = choose|j: int| 0 <= j < fewer.len() && fewer[j] == kept[i];
                assert(s[j] == kept[i]);
            } else {
                assert(s[s.len() - 1] == kept[i]);
            }
        }
        assert forall|i: int| 0 <= i < s.len() && pred(#[trigger] s[i]) implies kept.contains(
            s[i],
        ) by {
            if i < fewer.len() {
                assert(fewer[i] == s[i]);
                let j = choose|j: int|
                    0 <= j < fewer.filter(pred).len() && fewer.filter(pred)[j] == s[i];
                assert(kept[j] == s[i]);
            } else {
                assert(kept[kept.len() - 1] == s[i]);
            }
        }
    }
}

/// What is reaped is never something that the config renders.
pub proof fn law_nothing_wanted_is_reaped(cfg: EffectiveConfigView)
    ensures
        ({
            let stale = stale_among(all_variants_view(cfg), render_view(cfg));
            forall|i: int|
                0 <= i < stale.len() ==> !has_id(render_view(cfg), (#[trigger] stale[i]).id())
                    && cilium_cr(stale[i])
        }),
{
    let keep = render_view(cfg);
    let gone = |c: RenderedView| !has_id(keep, c.id());
    let all = all_variants_view(cfg);
    let stale = stale_among(all, keep);
    lemma_filter(all, gone);
    assert forall|i: int| 0 <= i < stale.len() implies !has_id(keep, (#[trigger] stale[i]).id())
        && cilium_cr(stale[i]) by {
        assert(gone(stale[i]));
        assert(all.contains(stale[i]));
    }
}

/// Going from one config to another, every Cilium CR of the first that the
/// second does not render is reaped.
pub proof fn law_what_a_change_drops_is_reaped(
    before: EffectiveConfigView,
    after: EffectiveConfigView,
    i: int,
)
    requires
        0 <= i < render_view(before).len(),
        cilium_cr(render_view(before)[i]),
        !has_id(render_view(after), render_view(before)[i].id()),
    ensures
        has_id(
            stale_among(all_variants_view(after), render_view(after)),
            render_view(before)[i].id(),
        ),
{
    let keep = render_view(after);
    let gone = |c: RenderedView| !has_id(keep, c.id());
    let all = all_variants_view(after);
    let stale = stale_among(all, keep);
    let j = law_every_cr_is_reapable(before, after, i);
    lemma_filter(all, gone);
    assert(gone(all[j]));
    let k = choose|k: int| 0 <= k < stale.len() && stale[k] == all[j];
    assert(stale[k].id() == render_view(before)[i].id());
}

/// Told that its objects are applied, a pass reaps exactly what its config does
/// not render: of the Cilium CRs that any other config renders each is rendered
/// or reaped, and nothing that is rendered is.
pub proof fn law_a_pass_reaps_exactly_what_it_does_not_render(
    base: BaseView,
    cfg: EffectiveConfigView,
    other: EffectiveConfigView,
    deferred: Seq<Seq<char>>,
    now: Time,
)
    ensures
        ({
            let wanted = render_view(cfg);
            let before = render_view(other);
            let next = next_pass(
                PassView::Apply { base, cfg, objects: wanted },
                EventView::Applied(Ok(deferred)),
                now,
            );
            &&& next is Reap
            &&& next->Reap_base == base && next->Reap_cfg == cfg && next->Reap_deferred == deferred
            &&& forall|i: int|
                0 <= i < next->Reap_stale.len() ==> !has_id(
                    wanted,
                    (#[trigger] next->Reap_stale[i]).id(),
                ) && cilium_cr(next->Reap_stale[i])
            &&& forall|i: int|
                0 <= i < before.len() && cilium_cr(#[trigger] before[i]) ==> (has_id(
                    wanted,
                    before[i].id(),
                ) <==> !has_id(next->Reap_stale, before[i].id()))
        }),
{
    let wanted = render_view(cfg);
    let before = render_view(other);
    let stale = stale_among(all_variants_view(cfg), wanted);
    law_nothing_wanted_is_reaped(cfg);
    assert forall|i: int| 0 <= i < before.len() && cilium_cr(#[trigger] before[i]) implies (has_id(
        wanted,
        before[i].id(),
    ) <==> !has_id(stale, before[i].id())) by {
        if !has_id(wanted, before[i].id()) {
            law_what_a_change_drops_is_reaped(other, cfg, i);
        }
    }
}

proof fn lemma_stale(candidates: Seq<RenderedView>, keep: Seq<RenderedView>)
    ensures
        forall|id: Seq<char>| #[trigger]
            has_id(stale_among(candidates, keep), id) <==> has_id(candidates, id) && !has_id(
                keep,
                id,
            ),
        forall|i: int|
            0 <= i < stale_among(candidates, keep).len() ==> has_id(
                candidates,
                (#[trigger] stale_among(candidates, keep)[i]).id(),
            ),
{
    let gone = |c: RenderedView| !has_id(keep, c.id());
    let stale = stale_among(candidates, keep);
    lemma_filter(candidates, gone);
    assert forall|i: int| 0 <= i < stale.len() implies has_id(
        candidates,
        (#[trigger] stale[i]).id(),
    ) by {
        let j = choose|j: int| 0 <= j < candidates.len() && candidates[j] == stale[i];
        assert(candidates[j].id() == stale[i].id());
    }
    assert forall|id: Seq<char>| #[trigger] has_id(stale, id) <==> has_id(candidates, id)
        && !has_id(keep, id) by {
        if has_id(stale, id) {
            let i = choose|i: int| 0 <= i < stale.len() && (#[trigger] stale[i]).id() == id;
            assert(gone(stale[i]));
        }
        if has_id(candidates, id) && !has_id(keep, id) {
            let j = choose|j: int|
                0 <= j < candidates.len() && (#[trigger] candidates[j]).id() == id;
            assert(gone(candidates[j]));
            let i = choose|i: int| 0 <= i < stale.len() && stale[i] == candidates[j];
            assert(stale[i].id() == id);
        }
    }
}

/// The Cilium CRs by their ids: after an apply each is reaped exactly if the
/// config does not call for it, and nothing else ever is.
pub proof fn law_which_crs_are_reaped(
    base: BaseView,
    cfg: EffectiveConfigView,
    deferred: Seq<Seq<char>>,
    now: Time,
)
    ensures
        ({
            let stale = next_pass(
                PassView::Apply { base, cfg, objects: render_view(cfg) },
                EventView::Applied(Ok(deferred)),
                now,
            )->Reap_stale;
            let pool = cfg.lb_ipam;
            let l2 = cfg.lb_ipam && cfg.announce == Announce::L2;
            let bgp = cfg.lb_ipam && cfg.announce == Announce::Bgp;
            &&& has_id(stale, "CiliumLoadBalancerIPPool/storm-default"@) <==> !pool
            &&& has_id(stale, "CiliumL2AnnouncementPolicy/storm-default"@) <==> !l2
            &&& has_id(stale, "CiliumBGPClusterConfig/storm"@) <==> !bgp
            &&& has_id(stale, "CiliumBGPPeerConfig/storm-peers"@) <==> !bgp
            &&& has_id(stale, "CiliumBGPAdvertisement/storm-advertisements"@) <==> !bgp
            &&& forall|i: int|
                0 <= i < stale.len() ==> {
                    let id = (#[trigger] stale[i]).id();
                    ||| id == "CiliumLoadBalancerIPPool/storm-default"@
                    ||| id == "CiliumL2AnnouncementPolicy/storm-default"@
                    ||| id == "CiliumBGPClusterConfig/storm"@
                    ||| id == "CiliumBGPPeerConfig/storm-peers"@
                    ||| id == "CiliumBGPAdvertisement/storm-advertisements"@
                }
        }),
{
    let all = all_variants_view(cfg);
    law_which_crs_are_rendered(cfg);
    law_the_ids_of_the_crs(cfg);
    lemma_stale(all, render_view(cfg));
    assert(has_id(all, all[0].id()) && has_id(all, all[1].id()) && has_id(all, all[2].id())
        && has_id(all, all[3].id()) && has_id(all, all[4].id()));
}

/// Of candidates those are stale that are not kept, by their ids; nothing else is.
pub proof fn law_what_is_stale(candidates: Seq<RenderedView>, keep: Seq<RenderedView>, id: Seq<char>)
    ensures
        has_id(stale_among(candidates, keep), id) <==> has_id(candidates, id) && !has_id(keep, id),
        forall|i: int|
            0 <= i < stale_among(candidates, keep).len() ==> candidates.contains(
                #[trigger] stale_among(candidates, keep)[i],
            ),
{
    lemma_stale(candidates, keep);
    lemma_filter(candidates, |c: RenderedView| !has_id(keep, c.id()));
}

/// Some object has an id exactly if the id is among those of the objects.
pub proof fn law_ids_are_looked_up(objects: Seq<RenderedView>, id: Seq<char>)
    ensures
        has_id(objects, id) <==> objects.map_values(|r: RenderedView| r.id()).contains(id),
{
    let ids = objects.map_values(|r: RenderedView| r.id());
    if has_id(objects, id) {
        let i = choose|i: int| 0 <= i < objects.len() && (#[trigger] objects[i]).id() == id;
        assert(ids[i] == id);
    }
    if ids.contains(id) {
        let i = choose|i: int| 0 <= i < ids.len() && ids[i] == id;
        assert(objects[i].id() == id);
    }
}

/// How the errors of a pass read, in the log and on the CR: the log says which step
/// it was, and the CR has the cause as it is.
pub proof fn law_how_the_errors_read(
    invalid: ValidationErrorView,
    message: Seq<char>,
    failure: ApplyErrorView,
    refusal: KubeErrorView,
)
    ensures
        ErrorView::Invalid(invalid).line() == "invalid Network spec — "@ + invalid.field + ": "@
            + invalid.message,
        ErrorView::Invalid(invalid).recorded() == invalid.field + ": "@ + invalid.message,
        ErrorView::Immutable(message).line() == "rejected: "@ + message,
        ErrorView::Immutable(message).recorded() == message,
        ErrorView::Apply(failure).line() == failure.line(),
        ErrorView::Apply(failure).recorded() == failure.line(),
        ErrorView::Kube(refusal).line() == "kubernetes: "@ + refusal.line(),
        ErrorView::Kube(refusal).recorded() == refusal.line(),
{
    assert("invalid Network spec — "@ + (invalid.field + ": "@ + invalid.message)
        =~= "invalid Network spec — "@ + invalid.field + ": "@ + invalid.message);
}

/// A failed pass is explained by what runs, where that could be seen, and otherwise
/// by nothing having been seen; either way the cause is what the conditions give.
pub proof fn law_a_failure_is_explained_by_what_runs(
    base: BaseView,
    error: ErrorView,
    seen: SnapshotView,
    refusal: KubeErrorView,
    now: Time,
)
    ensures
        ({
            let told = next_pass(
                PassView::Explain { base, error },
                EventView::Observed(Ok(seen)),
                now,
            );
            let blind = next_pass(
                PassView::Explain { base, error },
                EventView::Observed(Err(refusal)),
                now,
            );
            let nothing = SnapshotView {
                agent: None,
                operator: None,
                deferred: seq![],
                failure: Some(error.recorded()),
                crashlooping: seq![],
            };
            &&& told->Report_status.conditions == conditions_view(
                base.previous.conditions,
                (SnapshotView { failure: Some(error.recorded()), ..seen }),
                base.generation,
                now,
            )
            &&& blind->Report_status.conditions == conditions_view(
                base.previous.conditions,
                nothing,
                base.generation,
                now,
            )
            &&& told->Report_status.observed_generation == Some(base.generation)
            &&& blind->Report_status.observed_generation == Some(base.generation)
            &&& told->Report_outcome == Err::<u64, _>(error)
            &&& blind->Report_outcome == Err::<u64, _>(error)
        }),
{
    let blank = SnapshotView { failure: Some(error.recorded()), ..SnapshotView::nothing() };
    assert(blank =~= SnapshotView {
        agent: None,
        operator: None,
        deferred: seq![],
        failure: Some(error.recorded()),
        crashlooping: seq![],
    });
}

} // verus!
