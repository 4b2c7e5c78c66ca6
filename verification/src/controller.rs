//! The reconcile loop: what one pass does next, and what it reports.
//!
//! One pass:
//!
//! 1. resolve the spec into an [`EffectiveConfig`] (mode defaults + validation)
//! 2. refuse immutable changes against `status.applied*`
//! 3. render and server-side apply
//! 4. reap objects we used to render but no longer do
//! 5. observe health and write the conditions back
//!
//! The cluster is talked to elsewhere. [`begin`] says what a pass starts with,
//! and [`step`] what it goes on with once that is done.

use vstd::prelude::*;

use crate::apply::{ApplyError, ApplyErrorView};
use crate::crd::{Network, NetworkStatus, NetworkStatusView, NetworkView};
use crate::health::{conditions, Snapshot, SnapshotView};
use crate::immutable::{applied_from, check, Violation, ViolationView};
use crate::k8s::meta::Time;
use crate::kube_error::{KubeError, KubeErrorView};
use crate::modes::validation::{ValidationError, ValidationErrorView};
use crate::modes::{resolve_network, EffectiveConfig, EffectiveConfigView};
use crate::render::{reapable, render, Rendered, RenderedView};
use crate::text::{cat, join, str_eq, string_or};

pub mod laws;

verus! {

use crate::health::conditions_view;
use crate::immutable::{baseline, violations};
use crate::modes::validation::violation_of;
use crate::modes::{effective, effective_network};
use crate::render::lb::all_variants_view;
use crate::render::render_view;
use crate::text::{given, joined};

/// Seconds to the next pass when nothing has changed. Catches anything a watch
/// could miss — notably rollout progress, which changes pod status without
/// touching an object we own.
pub const RESYNC: u64 = 60;

/// Seconds to the next pass after a failed one.
pub const RETRY: u64 = 15;

/// Seconds to the next pass while we are waiting on cilium-operator to register
/// its CRDs.
pub const DEFERRED_RETRY: u64 = 10;

// --- errors ----------------------------------------------------------------

/// Why a pass failed.
#[derive(Clone, Debug, PartialEq, Eq)]
pub enum Error {
    Invalid(ValidationError),
    Immutable(String),
    Apply(ApplyError),
    Kube(KubeError),
}

/// What an [`Error`] holds.
#[verifier::ext_equal]
pub enum ErrorView {
    Invalid(ValidationErrorView),
    Immutable(Seq<char>),
    Apply(ApplyErrorView),
    Kube(KubeErrorView),
}

impl DeepView for Error {
    type V = ErrorView;

    open spec fn deep_view(&self) -> ErrorView {
        match self {
            Error::Invalid(e) => ErrorView::Invalid(e.deep_view()),
            Error::Immutable(message) => ErrorView::Immutable(message@),
            Error::Apply(e) => ErrorView::Apply(e.deep_view()),
            Error::Kube(e) => ErrorView::Kube(e.deep_view()),
        }
    }
}

impl ErrorView {
    /// The error in one line.
    pub open spec fn line(self) -> Seq<char> {
        match self {
            ErrorView::Invalid(e) => "invalid Network spec — "@ + e.line(),
            ErrorView::Immutable(message) => "rejected: "@ + message,
            ErrorView::Apply(e) => e.line(),
            ErrorView::Kube(e) => "kubernetes: "@ + e.line(),
        }
    }

    /// What is recorded on the CR: the cause, as it is.
    pub open spec fn recorded(self) -> Seq<char> {
        match self {
            ErrorView::Invalid(e) => e.line(),
            ErrorView::Immutable(message) => message,
            ErrorView::Apply(e) => e.line(),
            ErrorView::Kube(e) => e.line(),
        }
    }
}

impl Error {
    /// The error in one line.
    pub fn describe(&self) -> (r: String)
        ensures
            r@ == self.deep_view().line(),
    {
        match self {
            Error::Invalid(e) => cat("invalid Network spec — ", e.describe().as_str()),
            Error::Immutable(message) => cat("rejected: ", message.as_str()),
            Error::Apply(e) => e.describe(),
            Error::Kube(e) => cat("kubernetes: ", e.describe().as_str()),
        }
    }

    /// What is recorded on the CR.
    pub fn cause(&self) -> (r: String)
        ensures
            r@ == self.deep_view().recorded(),
    {
        match self {
            Error::Invalid(e) => e.describe(),
            Error::Immutable(message) => message.clone(),
            Error::Apply(e) => e.describe(),
            Error::Kube(e) => e.describe(),
        }
    }
}

// --- deciding --------------------------------------------------------------

/// Every violation in one line, one after the other.
pub open spec fn violations_line(found: Seq<ViolationView>) -> Seq<char> {
    joined(found.map_values(|v: ViolationView| v.line()), "; "@)
}

fn describe_all(found: &Vec<Violation>) -> (r: String)
    ensures
        r@ == violations_line(found.deep_view()),
{
    let mut lines: Vec<String> = Vec::new();
    let ghost all = found.deep_view();
    let mut i: usize = 0;
    while i < found.len()
        invariant
            i <= found.len(),
            all == found.deep_view(),
            lines@.len() == i,
            forall|j: int| 0 <= j < i ==> (#[trigger] lines@[j])@ == all[j].line(),
        decreases found.len() - i,
    {
        lines.push(found[i].describe());
        i = i + 1;
    }
    assert(lines.deep_view() =~= all.map_values(|v: ViolationView| v.line()));
    join(&lines, "; ")
}

/// The config that a pass installs, or why it installs nothing.
pub open spec fn decision(net: NetworkView) -> Result<EffectiveConfigView, ErrorView> {
    match violation_of(effective(net.spec)) {
        Some(e) => Err(ErrorView::Invalid(e)),
        None => {
            let cfg = effective_network(net);
            let found = violations(cfg, net.status);
            if found.len() > 0 {
                Err(ErrorView::Immutable(violations_line(found)))
            } else {
                Ok(cfg)
            }
        },
    }
}

/// A decision, as the contracts speak of it.
pub open spec fn decision_view(
    r: Result<EffectiveConfig, Error>,
) -> Result<EffectiveConfigView, ErrorView> {
    match r {
        Ok(cfg) => Ok(cfg.deep_view()),
        Err(e) => Err(e.deep_view()),
    }
}

/// Resolve the spec, and refuse changes that cannot be made under a live
/// dataplane.
pub fn decide(net: &Network) -> (r: Result<EffectiveConfig, Error>)
    ensures
        decision_view(r) == decision(net.deep_view()),
{
    match resolve_network(net) {
        Err(e) => Err(Error::Invalid(e)),
        Ok(cfg) => {
            let found = check(&cfg, net.status.as_ref());
            if found.len() > 0 {
                Err(Error::Immutable(describe_all(&found)))
            } else {
                Ok(cfg)
            }
        },
    }
}

// --- reaping ---------------------------------------------------------------

/// Some object has this id.
pub open spec fn has_id(objects: Seq<RenderedView>, id: Seq<char>) -> bool {
    exists|i: int| 0 <= i < objects.len() && (#[trigger] objects[i]).id() == id
}

/// The candidates that are not kept, in order.
pub open spec fn stale_among(
    candidates: Seq<RenderedView>,
    keep: Seq<RenderedView>,
) -> Seq<RenderedView> {
    candidates.filter(|c: RenderedView| !has_id(keep, c.id()))
}

fn ids_of(objects: &Vec<Rendered>) -> (r: Vec<String>)
    ensures
        r@.len() == objects@.len(),
        forall|i: int|
            0 <= i < r@.len() ==> (#[trigger] r@[i])@ == objects.deep_view()[i].id(),
{
    let mut out: Vec<String> = Vec::new();
    let ghost all = objects.deep_view();
    let mut i: usize = 0;
    while i < objects.len()
        invariant
            i <= objects.len(),
            all == objects.deep_view(),
            out@.len() == i,
            forall|j: int| 0 <= j < i ==> (#[trigger] out@[j])@ == all[j].id(),
        decreases objects.len() - i,
    {
        out.push(objects[i].id());
        i = i + 1;
    }
    out
}

fn is_among(ids: &Vec<String>, id: &str) -> (r: bool)
    ensures
        r == exists|i: int| 0 <= i < ids@.len() && (#[trigger] ids@[i])@ == id@,
{
    let mut i: usize = 0;
    while i < ids.len()
        invariant
            i <= ids.len(),
            forall|j: int| 0 <= j < i ==> (#[trigger] ids@[j])@ != id@,
        decreases ids.len() - i,
    {
        if str_eq(ids[i].as_str(), id) {
            return true;
        }
        i = i + 1;
    }
    false
}

/// What a previous config rendered and this one does not — otherwise turning BGP
/// off would leave the peering CRs behind, still advertising.
pub fn stale(cfg: &EffectiveConfig, keep: &Vec<Rendered>) -> (r: Vec<Rendered>)
    ensures
        r.deep_view() == stale_among(all_variants_view(cfg.deep_view()), keep.deep_view()),
{
    let wanted = ids_of(keep);
    let mut candidates = reapable(cfg);
    let mut out: Vec<Rendered> = Vec::new();
    let ghost kept = keep.deep_view();
    let ghost gone = |c: RenderedView| !has_id(kept, c.id());
    let ghost all = candidates.deep_view();
    let ghost mut done: int = 0;
    proof {
        reveal(Seq::filter);
        assert(all.take(0) =~= seq![]);
        assert(out.deep_view() =~= seq![]);
        assert(all.skip(0) =~= all);
    }
    while candidates.len() > 0
        invariant
            kept == keep.deep_view(),
            gone == (|c: RenderedView| !has_id(kept, c.id())),
            wanted@.len() == kept.len(),
            forall|i: int| 0 <= i < wanted@.len() ==> (#[trigger] wanted@[i])@ == kept[i].id(),
            0 <= done <= all.len(),
            candidates.deep_view() == all.skip(done),
            out.deep_view() == all.take(done).filter(gone),
        decreases candidates.len(),
    {
        let ghost before = out.deep_view();
        let ghost left = candidates.deep_view();
        assert(left.len() == candidates.len());
        assert(done < all.len());
        let candidate = candidates.remove(0);
        let id = candidate.id();
        proof {
            reveal(Seq::filter);
            assert(candidate.deep_view() == left[0]);
            assert(candidates.deep_view() =~= left.skip(1));
            assert(left.skip(1) =~= all.skip(done + 1));
            assert(all.take(done + 1).drop_last() =~= all.take(done));
            assert(all.take(done + 1).last() == candidate.deep_view());
        }
        let listed = is_among(&wanted, id.as_str());
        assert(listed == has_id(kept, candidate.deep_view().id())) by {
            if listed {
                let i = choose|i: int| 0 <= i < wanted@.len() && (#[trigger] wanted@[i])@ == id@;
                assert(kept[i].id() == id@);
            }
            if has_id(kept, id@) {
                let i = choose|i: int| 0 <= i < kept.len() && (#[trigger] kept[i]).id() == id@;
                assert(wanted@[i]@ == id@);
            }
        }
        if !listed {
            out.push(candidate);
            assert(out.deep_view() =~= before.push(candidate.deep_view()));
        }
        proof {
            done = done + 1;
        }
    }
    assert(all.take(done) =~= all);
    out
}

// --- statuses --------------------------------------------------------------

/// What a pass starts from.
#[derive(Clone, Debug, PartialEq)]
pub struct Base {
    /// The name of the `Network`.
    pub name: String,
    /// The status it had.
    pub previous: NetworkStatus,
    /// The generation that is acted on.
    pub generation: i64,
}

/// What a [`Base`] holds.
#[verifier::ext_equal]
pub struct BaseView {
    pub name: Seq<char>,
    pub previous: NetworkStatusView,
    pub generation: i64,
}

impl DeepView for Base {
    type V = BaseView;

    open spec fn deep_view(&self) -> BaseView {
        BaseView {
            name: self.name@,
            previous: self.previous.deep_view(),
            generation: self.generation,
        }
    }
}

/// What a pass over an object starts from.
pub open spec fn base_of(net: NetworkView) -> BaseView {
    BaseView {
        name: given(net.metadata.name, ""@),
        previous: given(net.status, NetworkStatusView::unset()),
        generation: given(net.metadata.generation, 0),
    }
}

fn base(net: &Network) -> (r: Base)
    ensures
        r.deep_view() == base_of(net.deep_view()),
{
    Base {
        name: string_or(&net.metadata.name, ""),
        previous: match &net.status {
            Some(status) => status.clone(),
            None => NetworkStatus::default(),
        },
        generation: net.metadata.generation.unwrap_or(0),
    }
}

/// The status after a pass that installed a config: the conditions, and the
/// baseline of that config.
pub open spec fn success_status(
    base: BaseView,
    cfg: EffectiveConfigView,
    snap: SnapshotView,
    now: Time,
) -> NetworkStatusView {
    NetworkStatusView {
        conditions: conditions_view(base.previous.conditions, snap, base.generation, now),
        observed_generation: Some(base.generation),
        ..baseline(cfg, base.previous)
    }
}

fn report_success(base: &Base, cfg: &EffectiveConfig, snap: &Snapshot, now: &Time) -> (r:
    NetworkStatus)
    ensures
        r.deep_view() == success_status(
            base.deep_view(),
            cfg.deep_view(),
            snap.deep_view(),
            *now,
        ),
{
    let mut next = base.previous.clone();
    next.conditions = conditions(
        base.previous.conditions.as_slice(),
        snap,
        base.generation,
        now,
    );
    next.observed_generation = Some(base.generation);
    applied_from(cfg, &mut next);
    assert(next.deep_view() =~= success_status(
        base.deep_view(),
        cfg.deep_view(),
        snap.deep_view(),
        *now,
    ));
    next
}

/// The status after a pass that failed: the conditions alone. The install on the
/// cluster is unchanged, so the immutability baseline must not move.
pub open spec fn failure_status(
    base: BaseView,
    message: Seq<char>,
    seen: SnapshotView,
    now: Time,
) -> NetworkStatusView {
    let snap = SnapshotView { failure: Some(message), ..seen };
    NetworkStatusView {
        conditions: conditions_view(base.previous.conditions, snap, base.generation, now),
        observed_generation: Some(base.generation),
        ..base.previous
    }
}

fn report_failure(base: &Base, message: String, seen: Snapshot, now: &Time) -> (r: NetworkStatus)
    ensures
        r.deep_view() == failure_status(base.deep_view(), message@, seen.deep_view(), *now),
{
    let mut snap = seen;
    snap.failure = Some(message);
    let mut next = base.previous.clone();
    next.conditions = conditions(
        base.previous.conditions.as_slice(),
        &snap,
        base.generation,
        now,
    );
    next.observed_generation = Some(base.generation);
    assert(next.deep_view() =~= failure_status(
        base.deep_view(),
        message@,
        seen.deep_view(),
        *now,
    ));
    next
}

// --- one pass --------------------------------------------------------------

/// Where a pass stands: what it does next, with what it needs for that.
#[derive(Debug, PartialEq)]
pub enum Pass {
    /// Apply these objects, in order.
    Apply { base: Base, cfg: EffectiveConfig, objects: Vec<Rendered> },
    /// Delete what this config no longer wants, in order.
    Reap { base: Base, cfg: EffectiveConfig, deferred: Vec<String>, stale: Vec<Rendered> },
    /// Look at the install.
    Observe { base: Base, cfg: EffectiveConfig, deferred: Vec<String> },
    /// Look at the install, to report on whatever is running: a bad spec edit
    /// does not stop the installed dataplane.
    Explain { base: Base, error: Error },
    /// Write this status.
    Report { name: String, status: NetworkStatus, outcome: Result<u64, Error> },
    /// Nothing left to do: come back after so many seconds, or the error.
    Finished { outcome: Result<u64, Error> },
}

/// What a [`Pass`] holds.
#[verifier::ext_equal]
pub enum PassView {
    Apply { base: BaseView, cfg: EffectiveConfigView, objects: Seq<RenderedView> },
    Reap {
        base: BaseView,
        cfg: EffectiveConfigView,
        deferred: Seq<Seq<char>>,
        stale: Seq<RenderedView>,
    },
    Observe { base: BaseView, cfg: EffectiveConfigView, deferred: Seq<Seq<char>> },
    Explain { base: BaseView, error: ErrorView },
    Report { name: Seq<char>, status: NetworkStatusView, outcome: Result<u64, ErrorView> },
    Finished { outcome: Result<u64, ErrorView> },
}

/// An outcome, as the contracts speak of it.
pub open spec fn outcome_view(outcome: Result<u64, Error>) -> Result<u64, ErrorView> {
    match outcome {
        Ok(seconds) => Ok(seconds),
        Err(e) => Err(e.deep_view()),
    }
}

impl DeepView for Pass {
    type V = PassView;

    open spec fn deep_view(&self) -> PassView {
        match self {
            Pass::Apply { base, cfg, objects } => PassView::Apply {
                base: base.deep_view(),
                cfg: cfg.deep_view(),
                objects: objects.deep_view(),
            },
            Pass::Reap { base, cfg, deferred, stale } => PassView::Reap {
                base: base.deep_view(),
                cfg: cfg.deep_view(),
                deferred: deferred.deep_view(),
                stale: stale.deep_view(),
            },
            Pass::Observe { base, cfg, deferred } => PassView::Observe {
                base: base.deep_view(),
                cfg: cfg.deep_view(),
                deferred: deferred.deep_view(),
            },
            Pass::Explain { base, error } => PassView::Explain {
                base: base.deep_view(),
                error: error.deep_view(),
            },
            Pass::Report { name, status, outcome } => PassView::Report {
                name: name@,
                status: status.deep_view(),
                outcome: outcome_view(*outcome),
            },
            Pass::Finished { outcome } => PassView::Finished { outcome: outcome_view(*outcome) },
        }
    }
}

/// What came of it.
#[derive(Debug, PartialEq)]
pub enum Event {
    /// The objects were applied, but for the ids that are put off.
    Applied(Result<Vec<String>, ApplyError>),
    Reaped(Result<(), ApplyError>),
    Observed(Result<Snapshot, KubeError>),
    Written(Result<(), KubeError>),
}

/// What an [`Event`] holds.
#[verifier::ext_equal]
pub enum EventView {
    Applied(Result<Seq<Seq<char>>, ApplyErrorView>),
    Reaped(Result<(), ApplyErrorView>),
    Observed(Result<SnapshotView, KubeErrorView>),
    Written(Result<(), KubeErrorView>),
}

impl DeepView for Event {
    type V = EventView;

    open spec fn deep_view(&self) -> EventView {
        match self {
            Event::Applied(Ok(deferred)) => EventView::Applied(Ok(deferred.deep_view())),
            Event::Applied(Err(e)) => EventView::Applied(Err(e.deep_view())),
            Event::Reaped(Ok(())) => EventView::Reaped(Ok(())),
            Event::Reaped(Err(e)) => EventView::Reaped(Err(e.deep_view())),
            Event::Observed(Ok(snap)) => EventView::Observed(Ok(snap.deep_view())),
            Event::Observed(Err(e)) => EventView::Observed(Err(e.deep_view())),
            Event::Written(Ok(())) => EventView::Written(Ok(())),
            Event::Written(Err(e)) => EventView::Written(Err(e.deep_view())),
        }
    }
}

/// How a pass starts.
pub open spec fn first_pass(net: NetworkView) -> PassView {
    match decision(net) {
        Ok(cfg) => PassView::Apply { base: base_of(net), cfg, objects: render_view(cfg) },
        Err(error) => PassView::Explain { base: base_of(net), error },
    }
}

/// Seconds to the next pass after a success.
pub open spec fn resync_after(deferred: Seq<Seq<char>>) -> u64 {
    if deferred.len() == 0 {
        RESYNC
    } else {
        DEFERRED_RETRY
    }
}

/// How a pass goes on. An event that it does not wait for changes nothing.
pub open spec fn next_pass(pass: PassView, event: EventView, now: Time) -> PassView {
    match (pass, event) {
        (PassView::Apply { base, cfg, objects }, EventView::Applied(Ok(deferred))) =>
            PassView::Reap {
            base,
            cfg,
            deferred,
            stale: stale_among(all_variants_view(cfg), objects),
        },
        (PassView::Apply { base, cfg, objects }, EventView::Applied(Err(e))) =>
            PassView::Explain { base, error: ErrorView::Apply(e) },
        (PassView::Reap { base, cfg, deferred, stale }, EventView::Reaped(Ok(()))) =>
            PassView::Observe { base, cfg, deferred },
        (PassView::Reap { base, cfg, deferred, stale }, EventView::Reaped(Err(e))) =>
            PassView::Finished { outcome: Err(ErrorView::Apply(e)) },
        (PassView::Observe { base, cfg, deferred }, EventView::Observed(Ok(seen))) =>
            PassView::Report {
            name: base.name,
            status: success_status(base, cfg, SnapshotView { deferred, ..seen }, now),
            outcome: Ok(resync_after(deferred)),
        },
        (PassView::Observe { base, cfg, deferred }, EventView::Observed(Err(e))) =>
            PassView::Finished { outcome: Err(ErrorView::Kube(e)) },
        (PassView::Explain { base, error }, EventView::Observed(observed)) => PassView::Report {
            name: base.name,
            status: failure_status(
                base,
                error.recorded(),
                match observed {
                    Ok(seen) => seen,
                    Err(_) => SnapshotView::nothing(),
                },
                now,
            ),
            outcome: Err(error),
        },
        (PassView::Report { name, status, outcome }, EventView::Written(Ok(()))) =>
            PassView::Finished { outcome },
        (PassView::Report { name, status, outcome }, EventView::Written(Err(e))) =>
            PassView::Finished { outcome: Err(ErrorView::Kube(e)) },
        _ => pass,
    }
}

/// Start a pass over a `Network`.
pub fn begin(net: &Network) -> (r: Pass)
    ensures
        r.deep_view() == first_pass(net.deep_view()),
{
    let base = base(net);
    match decide(net) {
        Ok(cfg) => {
            let objects = render(&cfg);
            Pass::Apply { base, cfg, objects }
        },
        Err(error) => Pass::Explain { base, error },
    }
}

fn requeue(deferred: &Vec<String>) -> (r: u64)
    ensures
        r == resync_after(deferred.deep_view()),
{
    if deferred.len() == 0 {
        RESYNC
    } else {
        DEFERRED_RETRY
    }
}

fn observed(base: Base, cfg: EffectiveConfig, deferred: Vec<String>, seen: Snapshot, now: &Time) -> (
    r: Pass)
    ensures
        r.deep_view() == (PassView::Report {
            name: base.name@,
            status: success_status(
                base.deep_view(),
                cfg.deep_view(),
                SnapshotView { deferred: deferred.deep_view(), ..seen.deep_view() },
                *now,
            ),
            outcome: Ok(resync_after(deferred.deep_view())),
        }),
{
    let seconds: u64 = requeue(&deferred);
    let mut snap = seen;
    snap.deferred = deferred;
    assert(snap.deep_view() =~= SnapshotView { deferred: deferred.deep_view(), ..seen.deep_view() });
    let status = report_success(&base, &cfg, &snap, now);
    Pass::Report { name: base.name, status, outcome: Ok(seconds) }
}

fn explained(base: Base, error: Error, seen: Snapshot, now: &Time) -> (r: Pass)
    ensures
        r.deep_view() == (PassView::Report {
            name: base.name@,
            status: failure_status(
                base.deep_view(),
                error.deep_view().recorded(),
                seen.deep_view(),
                *now,
            ),
            outcome: Err(error.deep_view()),
        }),
{
    let message = error.cause();
    let status = report_failure(&base, message, seen, now);
    Pass::Report { name: base.name, status, outcome: Err(error) }
}

/// Go on with a pass, once what it was doing is done.
pub fn step(pass: Pass, event: Event, now: &Time) -> (r: Pass)
    ensures
        r.deep_view() == next_pass(pass.deep_view(), event.deep_view(), *now),
{
    match (pass, event) {
        (Pass::Apply { base, cfg, objects }, Event::Applied(Ok(deferred))) => {
            let stale = stale(&cfg, &objects);
            Pass::Reap { base, cfg, deferred, stale }
        },
        (Pass::Apply { base, cfg, objects }, Event::Applied(Err(e))) => Pass::Explain {
            base,
            error: Error::Apply(e),
        },
        (Pass::Reap { base, cfg, deferred, stale }, Event::Reaped(Ok(()))) => Pass::Observe {
            base,
            cfg,
            deferred,
        },
        (Pass::Reap { base, cfg, deferred, stale }, Event::Reaped(Err(e))) => Pass::Finished {
            outcome: Err(Error::Apply(e)),
        },
        (Pass::Observe { base, cfg, deferred }, Event::Observed(Ok(seen))) => observed(
            base,
            cfg,
            deferred,
            seen,
            now,
        ),
        (Pass::Observe { base, cfg, deferred }, Event::Observed(Err(e))) => Pass::Finished {
            outcome: Err(Error::Kube(e)),
        },
        (Pass::Explain { base, error }, Event::Observed(Ok(seen))) => explained(
            base,
            error,
            seen,
            now,
        ),
        (Pass::Explain { base, error }, Event::Observed(Err(_))) => explained(
            base,
            error,
            Snapshot::default(),
            now,
        ),
        (Pass::Report { name, status, outcome }, Event::Written(Ok(()))) => Pass::Finished {
            outcome,
        },
        (Pass::Report { name, status, outcome }, Event::Written(Err(e))) => Pass::Finished {
            outcome: Err(Error::Kube(e)),
        },
        (pass, _) => pass,
    }
}

/// Seconds to the next pass, however this one ended.
pub open spec fn wait_after(outcome: Result<u64, ErrorView>) -> u64 {
    match outcome {
        Ok(seconds) => seconds,
        Err(_) => RETRY,
    }
}

/// Seconds to the next pass, however this one ended.
pub fn requeue_after(outcome: &Result<u64, Error>) -> (r: u64)
    ensures
        r == wait_after(outcome_view(*outcome)),
        r == match outcome {
            Ok(seconds) => *seconds,
            Err(_) => RETRY,
        },
{
    match outcome {
        Ok(seconds) => *seconds,
        Err(_) => RETRY,
    }
}

} // verus!
