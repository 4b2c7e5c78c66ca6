//! What is read off the cluster, and what it says about the install.

use vstd::prelude::*;

use crate::health::{Rollout, Snapshot, SnapshotView};
use crate::kube_error::KubeError;
use crate::text::str_eq;

verus! {

use crate::kube_error::refused_with;

/// Restarts before a crash-looping pod is called `Degraded` rather than
/// `Progressing`. Cilium legitimately restarts once or twice while the host is
/// still being prepared.
pub const CRASHLOOP_RESTARTS: i32 = 3;

/// The label selector of the agent's pods.
pub const AGENT_PODS: &'static str = "k8s-app=cilium";

// --- missing objects -------------------------------------------------------

/// An object that may not be there yet.
pub open spec fn when_there<T>(res: Result<T, KubeError>) -> Result<Option<T>, KubeError> {
    match res {
        Ok(v) => Ok(Some(v)),
        Err(e) => if refused_with(e.deep_view(), 404) {
            Ok(None)
        } else {
            Err(e)
        },
    }
}

/// `Ok(None)` for a 404, so "not created yet" is not an error.
pub fn optional<T>(res: Result<T, KubeError>) -> (r: Result<Option<T>, KubeError>)
    ensures
        r == when_there(res),
        match res {
            Ok(v) => r == Ok::<Option<T>, KubeError>(Some(v)),
            Err(e) => if refused_with(e.deep_view(), 404) {
                r == Ok::<Option<T>, KubeError>(None)
            } else {
                r == Err::<Option<T>, KubeError>(e)
            },
        },
{
    match res {
        Ok(v) => Ok(Some(v)),
        Err(e) => {
            if e.has_code(404) {
                Ok(None)
            } else {
                Err(e)
            }
        },
    }
}

// --- workloads -------------------------------------------------------------

/// What a DaemonSet reports; all zero before it reports anything.
#[derive(Clone, Copy, Debug, PartialEq, Eq, Structural)]
pub struct DaemonSetStatus {
    pub desired_number_scheduled: i32,
    pub number_ready: i32,
    pub updated_number_scheduled: Option<i32>,
}

/// The rollout of the agent.
pub open spec fn agent_progress(status: Option<DaemonSetStatus>) -> Rollout {
    match status {
        Some(s) => Rollout {
            desired: s.desired_number_scheduled,
            ready: s.number_ready,
            updated: counted(s.updated_number_scheduled),
        },
        None => Rollout { desired: 0, ready: 0, updated: 0 },
    }
}

/// The rollout of the agent.
pub fn agent_rollout(status: Option<DaemonSetStatus>) -> (r: Rollout)
    ensures
        r == agent_progress(status),
        r == match status {
            Some(s) => Rollout {
                desired: s.desired_number_scheduled,
                ready: s.number_ready,
                updated: match s.updated_number_scheduled {
                    Some(n) => n,
                    None => 0,
                },
            },
            None => Rollout { desired: 0, ready: 0, updated: 0 },
        },
{
    match status {
        Some(s) => Rollout {
            desired: s.desired_number_scheduled,
            ready: s.number_ready,
            updated: s.updated_number_scheduled.unwrap_or(0),
        },
        None => Rollout::default(),
    }
}

/// What a Deployment reports.
#[derive(Clone, Copy, Debug, PartialEq, Eq, Structural)]
pub struct DeploymentStatus {
    pub ready_replicas: Option<i32>,
    pub updated_replicas: Option<i32>,
}

/// A count that is left out where it is zero.
pub open spec fn counted(n: Option<i32>) -> i32 {
    match n {
        Some(n) => n,
        None => 0,
    }
}

/// The rollout of `cilium-operator`.
pub open spec fn operator_progress(
    replicas: Option<i32>,
    status: Option<DeploymentStatus>,
) -> Rollout {
    Rollout {
        desired: match replicas {
            Some(n) => n,
            None => 1,
        },
        ready: match status {
            Some(s) => counted(s.ready_replicas),
            None => 0,
        },
        updated: match status {
            Some(s) => counted(s.updated_replicas),
            None => 0,
        },
    }
}

/// The rollout of `cilium-operator`: one replica is desired where the spec does
/// not say.
pub fn operator_rollout(replicas: Option<i32>, status: Option<DeploymentStatus>) -> (r: Rollout)
    ensures
        r == operator_progress(replicas, status),
        r.desired == match replicas {
            Some(n) => n,
            None => 1,
        },
        r.ready == match status {
            Some(s) => counted(s.ready_replicas),
            None => 0,
        },
        r.updated == match status {
            Some(s) => counted(s.updated_replicas),
            None => 0,
        },
{
    let desired: i32 = replicas.unwrap_or(1);
    match status {
        Some(s) => Rollout {
            desired,
            ready: s.ready_replicas.unwrap_or(0),
            updated: s.updated_replicas.unwrap_or(0),
        },
        None => Rollout { desired, ready: 0, updated: 0 },
    }
}

// --- pods ------------------------------------------------------------------

/// What a container reports.
#[derive(Clone, Debug, PartialEq, Eq)]
pub struct ContainerStatus {
    pub restart_count: i32,
    /// Why it is waiting, where it is.
    pub waiting_reason: Option<String>,
}

/// What a [`ContainerStatus`] holds.
#[verifier::ext_equal]
pub struct ContainerStatusView {
    pub restart_count: i32,
    pub waiting_reason: Option<Seq<char>>,
}

impl DeepView for ContainerStatus {
    type V = ContainerStatusView;

    open spec fn deep_view(&self) -> ContainerStatusView {
        ContainerStatusView {
            restart_count: self.restart_count,
            waiting_reason: self.waiting_reason.deep_view(),
        }
    }
}

/// A pod, as far as its containers go.
#[derive(Clone, Debug, PartialEq, Eq)]
pub struct Pod {
    pub name: Option<String>,
    /// Empty before the pod reports anything.
    pub containers: Vec<ContainerStatus>,
}

/// What a [`Pod`] holds.
#[verifier::ext_equal]
pub struct PodView {
    pub name: Option<Seq<char>>,
    pub containers: Seq<ContainerStatusView>,
}

impl DeepView for Pod {
    type V = PodView;

    open spec fn deep_view(&self) -> PodView {
        PodView { name: self.name.deep_view(), containers: self.containers.deep_view() }
    }
}

/// A container that is backing off and has restarted often enough.
pub open spec fn backing_off(c: ContainerStatusView) -> bool {
    c.restart_count >= CRASHLOOP_RESTARTS && c.waiting_reason == Some("CrashLoopBackOff"@)
}

/// A pod with such a container.
pub open spec fn crashing(pod: PodView) -> bool {
    exists|i: int| 0 <= i < pod.containers.len() && backing_off(#[trigger] pod.containers[i])
}

/// Whether a container of the pod keeps crashing.
pub fn is_crashlooping(pod: &Pod) -> (r: bool)
    ensures
        r == crashing(pod.deep_view()),
{
    let ghost all = pod.deep_view().containers;
    let mut i: usize = 0;
    while i < pod.containers.len()
        invariant
            i <= pod.containers.len(),
            all == pod.deep_view().containers,
            forall|j: int| 0 <= j < i ==> !backing_off(#[trigger] all[j]),
        decreases pod.containers.len() - i,
    {
        let c = &pod.containers[i];
        assert(c.deep_view() == all[i as int]);
        if c.restart_count >= CRASHLOOP_RESTARTS {
            if let Some(reason) = &c.waiting_reason {
                if str_eq(reason.as_str(), "CrashLoopBackOff") {
                    assert(backing_off(all[i as int]));
                    return true;
                }
            }
        }
        i = i + 1;
    }
    false
}

/// The names of the pods that keep crashing, in order; a pod without a name is
/// not listed.
pub open spec fn crashing_names(pods: Seq<PodView>) -> Seq<Seq<char>>
    decreases pods.len(),
{
    if pods.len() == 0 {
        seq![]
    } else {
        let before = crashing_names(pods.drop_last());
        match pods.last().name {
            Some(name) if crashing(pods.last()) => before.push(name),
            _ => before,
        }
    }
}

/// The names of the pods that keep crashing.
pub fn crashlooping(pods: &Vec<Pod>) -> (r: Vec<String>)
    ensures
        r.deep_view() == crashing_names(pods.deep_view()),
{
    let mut out: Vec<String> = Vec::new();
    let ghost all = pods.deep_view();
    assert(all.take(0) =~= seq![]);
    assert(out.deep_view() =~= seq![]);
    let mut i: usize = 0;
    while i < pods.len()
        invariant
            i <= pods.len(),
            all == pods.deep_view(),
            out.deep_view() == crashing_names(all.take(i as int)),
        decreases pods.len() - i,
    {
        let ghost before = out.deep_view();
        assert(all.take(i + 1).drop_last() =~= all.take(i as int));
        assert(all.take(i + 1).last() == pods[i as int].deep_view());
        if is_crashlooping(&pods[i]) {
            if let Some(name) = &pods[i].name {
                out.push(name.clone());
                assert(out.deep_view() =~= before.push(name@));
            }
        }
        i = i + 1;
    }
    assert(all.take(pods.len() as int) =~= all);
    out
}

// --- the whole -------------------------------------------------------------

/// What was seen, where nothing failed.
pub open spec fn seen(
    agent: Option<Rollout>,
    operator: Option<Rollout>,
    pods: Seq<PodView>,
) -> SnapshotView {
    SnapshotView { agent, operator, crashlooping: crashing_names(pods), ..SnapshotView::nothing() }
}

/// Put together what was seen of the agent, of `cilium-operator` and of the
/// agent's pods.
pub fn snapshot(agent: Option<Rollout>, operator: Option<Rollout>, pods: &Vec<Pod>) -> (r: Snapshot)
    ensures
        r.deep_view() == seen(agent, operator, pods.deep_view()),
{
    Snapshot { agent, operator, crashlooping: crashlooping(pods), ..Snapshot::default() }
}

// --- laws ------------------------------------------------------------------

/// A pod keeps crashing exactly if one of its containers waits in
/// `CrashLoopBackOff` and has been restarted three times or more.
pub proof fn law_when_a_pod_keeps_crashing(pod: PodView)
    ensures
        crashing(pod) <==> exists|i: int|
            0 <= i < pod.containers.len() && (#[trigger] pod.containers[i]).restart_count >= 3
                && pod.containers[i].waiting_reason == Some("CrashLoopBackOff"@),
{
    if crashing(pod) {
        let i = choose|i: int|
            0 <= i < pod.containers.len() && backing_off(#[trigger] pod.containers[i]);
        assert(pod.containers[i].restart_count >= 3);
    }
    if exists|i: int|
        0 <= i < pod.containers.len() && (#[trigger] pod.containers[i]).restart_count >= 3
            && pod.containers[i].waiting_reason == Some("CrashLoopBackOff"@) {
        let i = choose|i: int|
            0 <= i < pod.containers.len() && (#[trigger] pod.containers[i]).restart_count >= 3
                && pod.containers[i].waiting_reason == Some("CrashLoopBackOff"@);
        assert(backing_off(pod.containers[i]));
    }
}

/// One more pod adds its name to the list exactly if it has one and keeps crashing,
/// and the names before it stay as they are.
pub proof fn law_crashing_pods_are_listed_in_order(pods: Seq<PodView>, pod: PodView)
    ensures
        crashing_names(Seq::empty()) == Seq::<Seq<char>>::empty(),
        crashing_names(pods.push(pod)) == if crashing(pod) && pod.name is Some {
            crashing_names(pods).push(pod.name->0)
        } else {
            crashing_names(pods)
        },
{
    assert(pods.push(pod).drop_last() =~= pods);
}

/// What is seen of the cluster is what the conditions are made of: nothing put off,
/// and no failure.
pub proof fn law_what_is_seen(
    agent: Option<Rollout>,
    operator: Option<Rollout>,
    pods: Seq<PodView>,
)
    ensures
        ({
            let s = seen(agent, operator, pods);
            &&& s.agent == agent && s.operator == operator
            &&& s.crashlooping == crashing_names(pods)
            &&& s.deferred.len() == 0 && s.failure is None
        }),
{
}

/// A workload's counts are what it reports, and zero where it reports nothing;
/// `cilium-operator` is meant to have one replica where its spec does not say.
pub proof fn law_rollouts_are_what_is_reported(
    daemon_set: DaemonSetStatus,
    replicas: Option<i32>,
    deployment: DeploymentStatus,
)
    ensures
        agent_progress(Some(daemon_set)).desired == daemon_set.desired_number_scheduled,
        agent_progress(Some(daemon_set)).ready == daemon_set.number_ready,
        daemon_set.updated_number_scheduled matches Some(n) ==> agent_progress(
            Some(daemon_set),
        ).updated == n,
        daemon_set.updated_number_scheduled is None ==> agent_progress(Some(daemon_set)).updated
            == 0,
        agent_progress(None) == (Rollout { desired: 0, ready: 0, updated: 0 }),
        replicas matches Some(n) ==> operator_progress(replicas, Some(deployment)).desired == n
            && operator_progress(replicas, None).desired == n,
        operator_progress(None, Some(deployment)).desired == 1,
        deployment.ready_replicas matches Some(n) ==> operator_progress(
            replicas,
            Some(deployment),
        ).ready == n,
        deployment.updated_replicas matches Some(n) ==> operator_progress(
            replicas,
            Some(deployment),
        ).updated == n,
        deployment.ready_replicas is None ==> operator_progress(replicas, Some(deployment)).ready
            == 0,
        deployment.updated_replicas is None ==> operator_progress(
            replicas,
            Some(deployment),
        ).updated == 0,
        operator_progress(replicas, None).ready == 0 && operator_progress(replicas, None).updated
            == 0,
{
}

/// Reading an object fails exactly where the apiserver fails with anything but 404:
/// a 404 says that the object is not there yet.
pub proof fn law_not_there_yet_is_no_error<T>(found: T, e: KubeError, code: u16)
    ensures
        when_there(Ok::<T, KubeError>(found)) == Ok::<Option<T>, KubeError>(Some(found)),
        refused_with(e.deep_view(), 404) ==> when_there(Err::<T, KubeError>(e)) == Ok::<
            Option<T>,
            KubeError,
        >(None),
        code != 404 && refused_with(e.deep_view(), code) ==> when_there(Err::<T, KubeError>(e))
            == Err::<Option<T>, KubeError>(e),
        e is Other ==> when_there(Err::<T, KubeError>(e)) == Err::<Option<T>, KubeError>(e),
{
}

} // verus!
