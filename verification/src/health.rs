//! Health aggregation: cluster observations -> `Available`/`Progressing`/
//! `Degraded` conditions, with cluster-operator semantics.
//!
//! [`observation`] says what to read; [`conditions`] is a function of what was
//! seen, the resulting [`Snapshot`].

use vstd::prelude::*;

use crate::crd::conditions::{AVAILABLE, DEGRADED, PROGRESSING};
use crate::k8s::meta::{Condition, ConditionView, Time};
use crate::text::{cat, cat3, decimal_string, join, signed_decimal_string, str_eq};

pub mod observation;

verus! {

use crate::text::{decimal, joined, signed_decimal};

/// What the reconciler saw of the install this pass.
#[derive(Clone, Debug, PartialEq, Eq)]
pub struct Snapshot {
    /// `None` when the DaemonSet does not exist yet.
    pub agent: Option<Rollout>,
    /// `None` when the Deployment does not exist yet.
    pub operator: Option<Rollout>,
    /// Cilium CRs whose CRDs are not registered yet.
    pub deferred: Vec<String>,
    /// Set when this pass failed to render or apply.
    pub failure: Option<String>,
    /// Pods that keep crashing.
    pub crashlooping: Vec<String>,
}

/// What a [`Snapshot`] holds.
#[verifier::ext_equal]
pub struct SnapshotView {
    pub agent: Option<Rollout>,
    pub operator: Option<Rollout>,
    pub deferred: Seq<Seq<char>>,
    pub failure: Option<Seq<char>>,
    pub crashlooping: Seq<Seq<char>>,
}

impl DeepView for Snapshot {
    type V = SnapshotView;

    open spec fn deep_view(&self) -> SnapshotView {
        SnapshotView {
            agent: self.agent,
            operator: self.operator,
            deferred: self.deferred.deep_view(),
            failure: self.failure.deep_view(),
            crashlooping: self.crashlooping.deep_view(),
        }
    }
}

impl SnapshotView {
    /// Nothing seen.
    pub open spec fn nothing() -> SnapshotView {
        SnapshotView {
            agent: None,
            operator: None,
            deferred: Seq::empty(),
            failure: None,
            crashlooping: Seq::empty(),
        }
    }
}

impl Default for Snapshot {
    fn default() -> (r: Snapshot)
        ensures
            r.deep_view() == SnapshotView::nothing(),
    {
        let r = Snapshot {
            agent: None,
            operator: None,
            deferred: Vec::new(),
            failure: None,
            crashlooping: Vec::new(),
        };
        assert(r.deep_view() =~~= SnapshotView::nothing());
        r
    }
}

/// Rollout progress of one workload.
#[derive(Clone, Copy, Debug, PartialEq, Eq, Structural)]
pub struct Rollout {
    pub desired: i32,
    pub ready: i32,
    /// Replicas already running the current pod template.
    pub updated: i32,
}

impl Default for Rollout {
    fn default() -> (r: Rollout)
        ensures
            r == (Rollout { desired: 0, ready: 0, updated: 0 }),
    {
        Rollout { desired: 0, ready: 0, updated: 0 }
    }
}

impl Rollout {
    /// As many replicas as desired are ready, and as many run the current
    /// template; and some are desired.
    pub open spec fn at_rest(self) -> bool {
        self.desired > 0 && self.ready >= self.desired && self.updated >= self.desired
    }

    /// Whether there is nothing left to roll out.
    pub fn settled(&self) -> (r: bool)
        ensures
            r == self.at_rest(),
    {
        self.desired > 0 && self.ready >= self.desired && self.updated >= self.desired
    }
}

// --- the rules -------------------------------------------------------------

/// A condition before its timestamp has been resolved.
#[derive(Clone, Debug, PartialEq, Eq)]
pub struct Draft {
    pub type_: &'static str,
    pub status: bool,
    pub reason: &'static str,
    pub message: String,
}

/// What a [`Draft`] holds.
#[verifier::ext_equal]
pub struct DraftView {
    pub type_: Seq<char>,
    pub status: bool,
    pub reason: Seq<char>,
    pub message: Seq<char>,
}

impl DeepView for Draft {
    type V = DraftView;

    open spec fn deep_view(&self) -> DraftView {
        DraftView {
            type_: self.type_@,
            status: self.status,
            reason: self.reason@,
            message: self.message@,
        }
    }
}

/// Degraded: something is wrong that will not fix itself. A failed pass outranks
/// pods that keep crashing.
pub open spec fn degraded_view(snap: SnapshotView) -> DraftView {
    match snap.failure {
        Some(failure) => DraftView {
            type_: DEGRADED@,
            status: true,
            reason: "ReconcileFailed"@,
            message: failure,
        },
        None => if snap.crashlooping.len() > 0 {
            DraftView {
                type_: DEGRADED@,
                status: true,
                reason: "PodsCrashLooping"@,
                message: decimal(snap.crashlooping.len()) + " pod(s) crash-looping past backoff: "@
                    + joined(snap.crashlooping, ", "@),
            }
        } else {
            DraftView {
                type_: DEGRADED@,
                status: false,
                reason: "AsExpected"@,
                message: "No degraded conditions"@,
            }
        },
    }
}

/// How many agents are ready.
pub open spec fn agents_ready(agent: Rollout) -> Seq<char> {
    signed_decimal(agent.ready as int) + "/"@ + signed_decimal(agent.desired as int)
        + " cilium agents ready"@
}

/// A verdict on availability.
pub open spec fn availability(status: bool, reason: Seq<char>, message: Seq<char>) -> DraftView {
    DraftView { type_: AVAILABLE@, status, reason, message }
}

/// Available: the dataplane is serving on every node. A DaemonSet with no nodes
/// to run on is not available in any sense a caller can use, even though nothing
/// is failing.
pub open spec fn available_view(snap: SnapshotView) -> DraftView {
    match (snap.agent, snap.operator) {
        (Some(agent), Some(operator)) => if agent.desired < 1 {
            availability(
                false,
                "NoSchedulableNodes"@,
                "The cilium DaemonSet has no nodes to schedule on"@,
            )
        } else if agent.ready < agent.desired {
            availability(false, "AgentNotReady"@, agents_ready(agent))
        } else if operator.ready < 1 {
            availability(false, "OperatorNotReady"@, "cilium-operator is not ready"@)
        } else {
            availability(true, "AsExpected"@, agents_ready(agent))
        },
        _ => availability(
            false,
            "Installing"@,
            "Cilium workloads have not been created yet"@,
        ),
    }
}

/// How far a rollout is.
pub open spec fn rollout_message(agent: Rollout, operator: Rollout) -> Seq<char> {
    "agents "@ + signed_decimal(agent.ready as int) + "/"@ + signed_decimal(agent.desired as int)
        + " ready ("@ + signed_decimal(agent.updated as int) + " updated); operator "@
        + signed_decimal(operator.ready as int) + "/"@ + signed_decimal(operator.desired as int)
        + " ready"@
}

/// A verdict on progress.
pub open spec fn progress(status: bool, reason: Seq<char>, message: Seq<char>) -> DraftView {
    DraftView { type_: PROGRESSING@, status, reason, message }
}

/// Progressing: work is still in flight.
pub open spec fn progressing_view(snap: SnapshotView) -> DraftView {
    match (snap.agent, snap.operator) {
        (Some(agent), Some(operator)) => if snap.deferred.len() > 0 {
            progress(
                true,
                "WaitingForCiliumCRDs"@,
                "waiting on cilium-operator to register: "@ + joined(snap.deferred, ", "@),
            )
        } else if !agent.at_rest() || !operator.at_rest() {
            progress(true, "RolloutInProgress"@, rollout_message(agent, operator))
        } else {
            progress(false, "AsExpected"@, "Cilium is at the desired version"@)
        },
        _ => progress(true, "Installing"@, "Creating the Cilium workloads"@),
    }
}

fn draft(type_: &'static str, status: bool, reason: &'static str, message: String) -> (r: Draft)
    ensures
        r.deep_view() == (DraftView {
            type_: type_@,
            status,
            reason: reason@,
            message: message@,
        }),
{
    Draft { type_, status, reason, message }
}

fn degraded(snap: &Snapshot) -> (r: Draft)
    ensures
        r.deep_view() == degraded_view(snap.deep_view()),
{
    match &snap.failure {
        Some(failure) => draft(DEGRADED, true, "ReconcileFailed", failure.clone()),
        None => {
            if snap.crashlooping.len() > 0 {
                let message = cat3(
                    decimal_string(snap.crashlooping.len() as u64).as_str(),
                    " pod(s) crash-looping past backoff: ",
                    join(&snap.crashlooping, ", ").as_str(),
                );
                draft(DEGRADED, true, "PodsCrashLooping", message)
            } else {
                draft(DEGRADED, false, "AsExpected", "No degraded conditions".to_string())
            }
        },
    }
}

fn agents_message(agent: &Rollout) -> (r: String)
    ensures
        r@ == agents_ready(*agent),
{
    let ready = cat3(
        signed_decimal_string(agent.ready as i64).as_str(),
        "/",
        signed_decimal_string(agent.desired as i64).as_str(),
    );
    cat(ready.as_str(), " cilium agents ready")
}

fn available(snap: &Snapshot) -> (r: Draft)
    ensures
        r.deep_view() == available_view(snap.deep_view()),
{
    match (&snap.agent, &snap.operator) {
        (Some(agent), Some(operator)) => {
            if agent.desired < 1 {
                draft(
                    AVAILABLE,
                    false,
                    "NoSchedulableNodes",
                    "The cilium DaemonSet has no nodes to schedule on".to_string(),
                )
            } else if agent.ready < agent.desired {
                draft(AVAILABLE, false, "AgentNotReady", agents_message(agent))
            } else if operator.ready < 1 {
                draft(
                    AVAILABLE,
                    false,
                    "OperatorNotReady",
                    "cilium-operator is not ready".to_string(),
                )
            } else {
                draft(AVAILABLE, true, "AsExpected", agents_message(agent))
            }
        },
        _ => draft(
            AVAILABLE,
            false,
            "Installing",
            "Cilium workloads have not been created yet".to_string(),
        ),
    }
}

fn rollout_text(agent: &Rollout, operator: &Rollout) -> (r: String)
    ensures
        r@ == rollout_message(*agent, *operator),
{
    let mut out = cat3("agents ", signed_decimal_string(agent.ready as i64).as_str(), "/");
    out.append(signed_decimal_string(agent.desired as i64).as_str());
    out.append(" ready (");
    out.append(signed_decimal_string(agent.updated as i64).as_str());
    out.append(" updated); operator ");
    out.append(signed_decimal_string(operator.ready as i64).as_str());
    out.append("/");
    out.append(signed_decimal_string(operator.desired as i64).as_str());
    out.append(" ready");
    out
}

fn progressing(snap: &Snapshot) -> (r: Draft)
    ensures
        r.deep_view() == progressing_view(snap.deep_view()),
{
    match (&snap.agent, &snap.operator) {
        (Some(agent), Some(operator)) => {
            if snap.deferred.len() > 0 {
                let message = cat(
                    "waiting on cilium-operator to register: ",
                    join(&snap.deferred, ", ").as_str(),
                );
                draft(PROGRESSING, true, "WaitingForCiliumCRDs", message)
            } else if !agent.settled() || !operator.settled() {
                draft(PROGRESSING, true, "RolloutInProgress", rollout_text(agent, operator))
            } else {
                draft(
                    PROGRESSING,
                    false,
                    "AsExpected",
                    "Cilium is at the desired version".to_string(),
                )
            }
        },
        _ => draft(
            PROGRESSING,
            true,
            "Installing",
            "Creating the Cilium workloads".to_string(),
        ),
    }
}

/// The verdicts: available, progressing, degraded.
pub fn evaluate(snap: &Snapshot) -> (r: (Draft, Draft, Draft))
    ensures
        r.0.deep_view() == available_view(snap.deep_view()),
        r.1.deep_view() == progressing_view(snap.deep_view()),
        r.2.deep_view() == degraded_view(snap.deep_view()),
{
    (available(snap), progressing(snap), degraded(snap))
}

// --- conditions ------------------------------------------------------------

/// A status as a condition spells it.
pub open spec fn status_word(status: bool) -> Seq<char> {
    if status {
        "True"@
    } else {
        "False"@
    }
}

/// When the first condition of a type with a status last changed.
pub open spec fn since(
    prev: Seq<ConditionView>,
    type_: Seq<char>,
    status: Seq<char>,
    from: int,
) -> Option<Time>
    decreases prev.len() - from,
{
    if from >= prev.len() {
        None
    } else if prev[from].type_ == type_ && prev[from].status == status {
        Some(prev[from].last_transition_time)
    } else {
        since(prev, type_, status, from + 1)
    }
}

/// A verdict as a condition: its transition time is the one it had, unless the
/// status has flipped.
pub open spec fn finished(
    prev: Seq<ConditionView>,
    d: DraftView,
    generation: i64,
    now: Time,
) -> ConditionView {
    ConditionView {
        type_: d.type_,
        status: status_word(d.status),
        reason: d.reason,
        message: d.message,
        observed_generation: Some(generation),
        last_transition_time: match since(prev, d.type_, status_word(d.status), 0) {
            Some(time) => time,
            None => now,
        },
    }
}

/// The three conditions, in order.
pub open spec fn conditions_view(
    prev: Seq<ConditionView>,
    snap: SnapshotView,
    generation: i64,
    now: Time,
) -> Seq<ConditionView> {
    seq![
        finished(prev, available_view(snap), generation, now),
        finished(prev, progressing_view(snap), generation, now),
        finished(prev, degraded_view(snap), generation, now),
    ]
}

/// Attach the timestamp, carrying `lastTransitionTime` forward when the status
/// has not actually flipped — a condition that re-stamps every pass is useless
/// for answering "how long has this been broken?".
pub fn finish(prev: &[Condition], d: Draft, generation: i64, now: &Time) -> (r: Condition)
    ensures
        r.deep_view() == finished(prev.deep_view(), d.deep_view(), generation, *now),
{
    let status = if d.status {
        "True"
    } else {
        "False"
    };
    let ghost all = prev.deep_view();
    let mut last_transition_time = *now;
    let mut i: usize = 0;
    let mut found = false;
    while i < prev.len() && !found
        invariant
            i <= prev.len(),
            all == prev.deep_view(),
            !found ==> since(all, d.type_@, status@, 0) == since(all, d.type_@, status@, i as int)
                && last_transition_time == *now,
            found ==> since(all, d.type_@, status@, 0) == Some(last_transition_time),
        decreases prev.len() - i,
    {
        if str_eq(prev[i].type_.as_str(), d.type_) && str_eq(prev[i].status.as_str(), status) {
            last_transition_time = prev[i].last_transition_time;
            found = true;
        }
        i = i + 1;
    }
    Condition {
        type_: d.type_.to_string(),
        status: status.to_string(),
        reason: d.reason.to_string(),
        message: d.message,
        observed_generation: Some(generation),
        last_transition_time,
    }
}

/// Derive the three conditions. `prev` is the CR's current conditions, used only
/// to preserve `lastTransitionTime` across passes where the status did not flip.
pub fn conditions(prev: &[Condition], snap: &Snapshot, generation: i64, now: &Time) -> (r: Vec<
    Condition,
>)
    ensures
        r.deep_view() == conditions_view(prev.deep_view(), snap.deep_view(), generation, *now),
{
    let (available, progressing, degraded) = evaluate(snap);
    let r = vec![
        finish(prev, available, generation, now),
        finish(prev, progressing, generation, now),
        finish(prev, degraded, generation, now),
    ];
    assert(r.deep_view() =~= conditions_view(
        prev.deep_view(),
        snap.deep_view(),
        generation,
        *now,
    ));
    r
}

/// The first condition of a type, counting from `from`.
pub open spec fn first_of_type(
    conditions: Seq<ConditionView>,
    type_: Seq<char>,
    from: int,
) -> Option<ConditionView>
    decreases conditions.len() - from,
{
    if from >= conditions.len() {
        None
    } else if conditions[from].type_ == type_ {
        Some(conditions[from])
    } else {
        first_of_type(conditions, type_, from + 1)
    }
}

/// Look a condition up by type.
pub fn find<'a>(conditions: &'a [Condition], type_: &str) -> (r: Option<&'a Condition>)
    ensures
        r.deep_view() == first_of_type(conditions.deep_view(), type_@, 0),
{
    let ghost all = conditions.deep_view();
    let mut i: usize = 0;
    while i < conditions.len()
        invariant
            i <= conditions.len(),
            all == conditions.deep_view(),
            first_of_type(all, type_@, 0) == first_of_type(all, type_@, i as int),
        decreases conditions.len() - i,
    {
        if str_eq(conditions[i].type_.as_str(), type_) {
            return Some(&conditions[i]);
        }
        i = i + 1;
    }
    None
}

/// A condition of this type is there, and the first one is `True`.
pub open spec fn holds(conditions: Seq<ConditionView>, type_: Seq<char>) -> bool {
    first_of_type(conditions, type_, 0) matches Some(c) && c.status == "True"@
}

/// Whether a condition of this type is `True`.
pub fn is_true(conditions: &[Condition], type_: &str) -> (r: bool)
    ensures
        r == holds(conditions.deep_view(), type_@),
{
    match find(conditions, type_) {
        Some(c) => str_eq(c.status.as_str(), "True"),
        None => false,
    }
}

// --- laws ------------------------------------------------------------------

proof fn lemma_types_differ()
    ensures
        AVAILABLE@ != PROGRESSING@,
        AVAILABLE@ != DEGRADED@,
        PROGRESSING@ != DEGRADED@,
        "True"@ != "False"@,
{
    reveal_strlit("Available");
    reveal_strlit("Progressing");
    reveal_strlit("Degraded");
    reveal_strlit("True");
    reveal_strlit("False");
    assert("Available"@.len() == 9);
    assert("Progressing"@.len() == 11);
    assert("Degraded"@.len() == 8);
    assert("True"@.len() == 4);
    assert("False"@.len() == 5);
}

/// There are always exactly three conditions, one of each type, all of the
/// generation that was acted on.
pub proof fn law_one_condition_of_each_type(
    prev: Seq<ConditionView>,
    snap: SnapshotView,
    generation: i64,
    now: Time,
)
    ensures
        ({
            let c = conditions_view(prev, snap, generation, now);
            &&& c.len() == 3
            &&& c[0].type_ == AVAILABLE@ && c[1].type_ == PROGRESSING@ && c[2].type_ == DEGRADED@
            &&& first_of_type(c, AVAILABLE@, 0) == Some(c[0])
            &&& first_of_type(c, PROGRESSING@, 0) == Some(c[1])
            &&& first_of_type(c, DEGRADED@, 0) == Some(c[2])
            &&& forall|i: int|
                0 <= i < 3 ==> (#[trigger] c[i]).observed_generation == Some(generation)
        }),
{
    lemma_types_differ();
    reveal_with_fuel(first_of_type, 4);
}

/// The dataplane is available exactly if some agents are desired and all of them
/// are ready, and `cilium-operator` has a ready replica.
pub proof fn law_available(
    prev: Seq<ConditionView>,
    snap: SnapshotView,
    generation: i64,
    now: Time,
)
    ensures
        holds(conditions_view(prev, snap, generation, now), AVAILABLE@) <==> {
            &&& snap.agent matches Some(agent) && agent.desired >= 1 && agent.ready
                >= agent.desired
            &&& snap.operator matches Some(operator) && operator.ready >= 1
        },
{
    law_one_condition_of_each_type(prev, snap, generation, now);
    lemma_types_differ();
}

/// The install is progressing exactly while a workload is not created, a Cilium
/// CR is put off, or a rollout is not at rest.
pub proof fn law_progressing(
    prev: Seq<ConditionView>,
    snap: SnapshotView,
    generation: i64,
    now: Time,
)
    ensures
        holds(conditions_view(prev, snap, generation, now), PROGRESSING@) <==> {
            ||| snap.agent is None
            ||| snap.operator is None
            ||| snap.deferred.len() > 0
            ||| !snap.agent->0.at_rest()
            ||| !snap.operator->0.at_rest()
        },
{
    law_one_condition_of_each_type(prev, snap, generation, now);
    lemma_types_differ();
}

/// The install is degraded exactly if the pass failed or pods keep crashing, and
/// a failed pass is what the message then speaks of.
pub proof fn law_degraded(
    prev: Seq<ConditionView>,
    snap: SnapshotView,
    generation: i64,
    now: Time,
)
    ensures
        holds(conditions_view(prev, snap, generation, now), DEGRADED@) <==> snap.failure is Some
            || snap.crashlooping.len() > 0,
        snap.failure matches Some(failure) ==> {
            let c = conditions_view(prev, snap, generation, now)[2];
            c.reason == "ReconcileFailed"@ && c.message == failure
        },
{
    law_one_condition_of_each_type(prev, snap, generation, now);
    lemma_types_differ();
}

/// A failure says nothing of the workloads: what is running stays available.
pub proof fn law_a_failure_does_not_hide_what_runs(
    prev: Seq<ConditionView>,
    snap: SnapshotView,
    failure: Seq<char>,
    generation: i64,
    now: Time,
)
    ensures
        ({
            let failed = SnapshotView { failure: Some(failure), ..snap };
            holds(conditions_view(prev, failed, generation, now), AVAILABLE@) == holds(
                conditions_view(prev, snap, generation, now),
                AVAILABLE@,
            )
        }),
{
    let failed = SnapshotView { failure: Some(failure), ..snap };
    law_available(prev, snap, generation, now);
    law_available(prev, failed, generation, now);
}

/// From one pass to the next, a condition keeps its transition time while its
/// status holds, and gets the time of the later pass when it flips.
pub proof fn law_transition_times(
    prev: Seq<ConditionView>,
    first: SnapshotView,
    second: SnapshotView,
    generations: (i64, i64),
    times: (Time, Time),
    i: int,
)
    requires
        0 <= i < 3,
    ensures
        ({
            let before = conditions_view(prev, first, generations.0, times.0);
            let after = conditions_view(before, second, generations.1, times.1);
            after[i].last_transition_time == if after[i].status == before[i].status {
                before[i].last_transition_time
            } else {
                times.1
            }
        }),
{
    lemma_types_differ();
    reveal_with_fuel(since, 4);
}

/// What `Available` says: whether the dataplane serves on every node, and if not,
/// the first thing that keeps it from that.
pub proof fn law_what_available_says(
    prev: Seq<ConditionView>,
    snap: SnapshotView,
    generation: i64,
    now: Time,
)
    ensures
        ({
            let c = conditions_view(prev, snap, generation, now)[0];
            let agents = signed_decimal(snap.agent->0.ready as int) + "/"@ + signed_decimal(
                snap.agent->0.desired as int,
            ) + " cilium agents ready"@;
            &&& c.type_ == "Available"@
            &&& if snap.agent is None || snap.operator is None {
                &&& c.status == "False"@ && c.reason == "Installing"@
                &&& c.message == "Cilium workloads have not been created yet"@
            } else if snap.agent->0.desired < 1 {
                &&& c.status == "False"@ && c.reason == "NoSchedulableNodes"@
                &&& c.message == "The cilium DaemonSet has no nodes to schedule on"@
            } else if snap.agent->0.ready < snap.agent->0.desired {
                &&& c.status == "False"@ && c.reason == "AgentNotReady"@
                &&& c.message == agents
            } else if snap.operator->0.ready < 1 {
                &&& c.status == "False"@ && c.reason == "OperatorNotReady"@
                &&& c.message == "cilium-operator is not ready"@
            } else {
                &&& c.status == "True"@ && c.reason == "AsExpected"@
                &&& c.message == agents
            }
        }),
{
}

/// A rollout that is through: some replicas are desired, as many are ready, and as
/// many run the current template.
pub open spec fn through(r: Rollout) -> bool {
    r.desired >= 1 && r.ready >= r.desired && r.updated >= r.desired
}

/// What `Progressing` says: what is still in flight, the workloads before the CRs
/// and the CRs before the rollout.
pub proof fn law_what_progressing_says(
    prev: Seq<ConditionView>,
    snap: SnapshotView,
    generation: i64,
    now: Time,
)
    ensures
        ({
            let c = conditions_view(prev, snap, generation, now)[1];
            let a = snap.agent->0;
            let o = snap.operator->0;
            &&& c.type_ == "Progressing"@
            &&& if snap.agent is None || snap.operator is None {
                &&& c.status == "True"@ && c.reason == "Installing"@
                &&& c.message == "Creating the Cilium workloads"@
            } else if snap.deferred.len() > 0 {
                &&& c.status == "True"@ && c.reason == "WaitingForCiliumCRDs"@
                &&& c.message == "waiting on cilium-operator to register: "@ + joined(
                    snap.deferred,
                    ", "@,
                )
            } else if !through(a) || !through(o) {
                &&& c.status == "True"@ && c.reason == "RolloutInProgress"@
                &&& c.message == "agents "@ + signed_decimal(a.ready as int) + "/"@
                    + signed_decimal(a.desired as int) + " ready ("@ + signed_decimal(
                    a.updated as int,
                ) + " updated); operator "@ + signed_decimal(o.ready as int) + "/"@
                    + signed_decimal(o.desired as int) + " ready"@
            } else {
                &&& c.status == "False"@ && c.reason == "AsExpected"@
                &&& c.message == "Cilium is at the desired version"@
            }
        }),
{
}

/// What `Degraded` says: why the pass failed, or else which pods keep crashing.
pub proof fn law_what_degraded_says(
    prev: Seq<ConditionView>,
    snap: SnapshotView,
    generation: i64,
    now: Time,
)
    ensures
        ({
            let c = conditions_view(prev, snap, generation, now)[2];
            &&& c.type_ == "Degraded"@
            &&& if snap.failure is Some {
                &&& c.status == "True"@ && c.reason == "ReconcileFailed"@
                &&& c.message == snap.failure->0
            } else if snap.crashlooping.len() > 0 {
                &&& c.status == "True"@ && c.reason == "PodsCrashLooping"@
                &&& c.message == decimal(snap.crashlooping.len())
                    + " pod(s) crash-looping past backoff: "@ + joined(snap.crashlooping, ", "@)
            } else {
                &&& c.status == "False"@ && c.reason == "AsExpected"@
                &&& c.message == "No degraded conditions"@
            }
        }),
{
}

/// The first condition with a type and status from an index on is at `k`.
proof fn lemma_since(
    prev: Seq<ConditionView>,
    type_: Seq<char>,
    status: Seq<char>,
    from: int,
    k: int,
)
    requires
        0 <= from <= k < prev.len(),
        prev[k].type_ == type_ && prev[k].status == status,
        forall|i: int|
            from <= i < k ==> !((#[trigger] prev[i]).type_ == type_ && prev[i].status == status),
    ensures
        since(prev, type_, status, from) == Some(prev[k].last_transition_time),
    decreases k - from,
{
    if from < k {
        lemma_since(prev, type_, status, from + 1, k);
    }
}

proof fn lemma_never(prev: Seq<ConditionView>, type_: Seq<char>, status: Seq<char>, from: int)
    requires
        0 <= from,
        forall|i: int|
            from <= i < prev.len() ==> !((#[trigger] prev[i]).type_ == type_ && prev[i].status
                == status),
    ensures
        since(prev, type_, status, from) is None,
    decreases prev.len() - from,
{
    if from < prev.len() {
        lemma_never(prev, type_, status, from + 1);
    }
}

/// Whatever the conditions were before, one keeps the time of the first that had
/// its type and its status, and gets the time of the pass where none had.
pub proof fn law_a_condition_keeps_its_time(
    prev: Seq<ConditionView>,
    snap: SnapshotView,
    generation: i64,
    now: Time,
    c: int,
    k: int,
)
    requires
        0 <= c < 3,
        0 <= k <= prev.len(),
        forall|i: int|
            0 <= i < k ==> !((#[trigger] prev[i]).type_ == conditions_view(
                prev,
                snap,
                generation,
                now,
            )[c].type_ && prev[i].status == conditions_view(prev, snap, generation, now)[c].status),
        k < prev.len() ==> prev[k].type_ == conditions_view(prev, snap, generation, now)[c].type_
            && prev[k].status == conditions_view(prev, snap, generation, now)[c].status,
    ensures
        conditions_view(prev, snap, generation, now)[c].last_transition_time == if k < prev.len() {
            prev[k].last_transition_time
        } else {
            now
        },
        conditions_view(prev, snap, generation, now)[c].observed_generation == Some(generation),
{
    let made = conditions_view(prev, snap, generation, now)[c];
    if k < prev.len() {
        lemma_since(prev, made.type_, made.status, 0, k);
    } else {
        lemma_never(prev, made.type_, made.status, 0);
    }
}

/// A condition is looked up by its type: the first one of it, or none.
pub proof fn law_the_first_of_a_type_is_found(
    conditions: Seq<ConditionView>,
    type_: Seq<char>,
    k: int,
)
    requires
        0 <= k <= conditions.len(),
        forall|i: int| 0 <= i < k ==> (#[trigger] conditions[i]).type_ != type_,
        k < conditions.len() ==> conditions[k].type_ == type_,
    ensures
        first_of_type(conditions, type_, 0) == if k < conditions.len() {
            Some(conditions[k])
        } else {
            None
        },
        holds(conditions, type_) <==> k < conditions.len() && conditions[k].status == "True"@,
{
    lemma_first_of_type(conditions, type_, 0, k);
}

proof fn lemma_first_of_type(
    conditions: Seq<ConditionView>,
    type_: Seq<char>,
    from: int,
    k: int,
)
    requires
        0 <= from <= k <= conditions.len(),
        forall|i: int| from <= i < k ==> (#[trigger] conditions[i]).type_ != type_,
        k < conditions.len() ==> conditions[k].type_ == type_,
    ensures
        first_of_type(conditions, type_, from) == if k < conditions.len() {
            Some(conditions[k])
        } else {
            None
        },
    decreases k - from,
{
    if from < k {
        lemma_first_of_type(conditions, type_, from + 1, k);
    }
}

} // verus!
