//! Conditions from what was seen of the install.

use chrono::{DateTime, TimeZone, Utc};
use network_operator::crd::conditions::{AVAILABLE, DEGRADED, PROGRESSING};
use network_operator::health::observation::{
    agent_rollout, crashlooping, is_crashlooping, operator_rollout, optional, snapshot,
    ContainerStatus, DaemonSetStatus, DeploymentStatus, Pod,
};
use network_operator::health::{conditions, find, is_true, Rollout, Snapshot};
use network_operator::k8s::meta::{Condition, Time};
use network_operator::kube_error::{ErrorResponse, KubeError};

fn time(at: DateTime<Utc>) -> Time {
    Time { secs: at.timestamp(), nanos: at.timestamp_subsec_nanos() }
}

fn now() -> Time {
    time(Utc.with_ymd_and_hms(2026, 7, 20, 12, 0, 0).unwrap())
}

fn later() -> Time {
    time(Utc.with_ymd_and_hms(2026, 7, 20, 13, 0, 0).unwrap())
}

fn rollout(desired: i32, ready: i32) -> Option<Rollout> {
    Some(Rollout { desired, ready, updated: ready })
}

fn healthy() -> Snapshot {
    Snapshot {
        agent: rollout(3, 3),
        operator: rollout(1, 1),
        ..Default::default()
    }
}

fn eval(snap: &Snapshot) -> Vec<Condition> {
    conditions(&[], snap, 1, &now())
}

fn status_of(c: &[Condition], t: &str) -> String {
    find(c, t).unwrap().status.clone()
}

#[test]
fn a_settled_install_is_available_and_nothing_else() {
    let c = eval(&healthy());
    assert_eq!(status_of(&c, AVAILABLE), "True");
    assert_eq!(status_of(&c, PROGRESSING), "False");
    assert_eq!(status_of(&c, DEGRADED), "False");
}

#[test]
fn a_fresh_install_is_progressing_not_degraded() {
    let c = eval(&Snapshot::default());
    assert_eq!(status_of(&c, AVAILABLE), "False");
    assert_eq!(status_of(&c, PROGRESSING), "True");
    assert_eq!(status_of(&c, DEGRADED), "False");
    assert_eq!(find(&c, PROGRESSING).unwrap().reason, "Installing");
}

#[test]
fn a_partial_rollout_is_progressing_and_unavailable() {
    let snap = Snapshot { agent: rollout(3, 2), ..healthy() };
    let c = eval(&snap);
    assert_eq!(status_of(&c, AVAILABLE), "False");
    assert_eq!(status_of(&c, PROGRESSING), "True");
    assert_eq!(find(&c, AVAILABLE).unwrap().reason, "AgentNotReady");
    assert!(find(&c, AVAILABLE).unwrap().message.contains("2/3"));
}

#[test]
fn an_upgrade_still_carrying_old_pods_is_progressing_while_available() {
    // Every agent is ready, but some are still on the previous image.
    let snap = Snapshot {
        agent: Some(Rollout { desired: 3, ready: 3, updated: 1 }),
        ..healthy()
    };
    let c = eval(&snap);
    assert_eq!(status_of(&c, AVAILABLE), "True");
    assert_eq!(status_of(&c, PROGRESSING), "True");
    assert_eq!(find(&c, PROGRESSING).unwrap().reason, "RolloutInProgress");
}

#[test]
fn crash_looping_pods_are_degraded() {
    let snap = Snapshot {
        crashlooping: vec!["cilium-abcde".into()],
        ..healthy()
    };
    let c = eval(&snap);
    assert_eq!(status_of(&c, DEGRADED), "True");
    assert_eq!(find(&c, DEGRADED).unwrap().reason, "PodsCrashLooping");
    assert!(find(&c, DEGRADED).unwrap().message.contains("cilium-abcde"));
}

#[test]
fn a_reconcile_failure_outranks_a_crash_loop_in_the_message() {
    let snap = Snapshot {
        failure: Some("apply failed: forbidden".into()),
        crashlooping: vec!["cilium-abcde".into()],
        ..healthy()
    };
    let c = eval(&snap);
    assert_eq!(find(&c, DEGRADED).unwrap().reason, "ReconcileFailed");
    assert!(find(&c, DEGRADED).unwrap().message.contains("forbidden"));
}

#[test]
fn no_schedulable_nodes_is_unavailable_rather_than_vacuously_ready() {
    let snap = Snapshot { agent: rollout(0, 0), ..healthy() };
    let c = eval(&snap);
    assert_eq!(status_of(&c, AVAILABLE), "False");
    assert_eq!(find(&c, AVAILABLE).unwrap().reason, "NoSchedulableNodes");
}

#[test]
fn deferred_cilium_crs_keep_us_progressing() {
    let snap = Snapshot {
        deferred: vec!["CiliumBGPClusterConfig/storm".into()],
        ..healthy()
    };
    let c = eval(&snap);
    assert_eq!(status_of(&c, PROGRESSING), "True");
    assert_eq!(find(&c, PROGRESSING).unwrap().reason, "WaitingForCiliumCRDs");
    // The dataplane is up even though the BGP CR is not applied yet.
    assert_eq!(status_of(&c, AVAILABLE), "True");
}

#[test]
fn an_operator_outage_does_not_hide_a_healthy_dataplane_as_degraded() {
    let snap = Snapshot { operator: rollout(1, 0), ..healthy() };
    let c = eval(&snap);
    assert_eq!(status_of(&c, AVAILABLE), "False");
    assert_eq!(find(&c, AVAILABLE).unwrap().reason, "OperatorNotReady");
    assert_eq!(status_of(&c, DEGRADED), "False");
}

#[test]
fn transition_time_is_kept_while_the_status_holds_and_reset_when_it_flips() {
    let first = conditions(&[], &healthy(), 1, &now());
    let unchanged = conditions(&first, &healthy(), 2, &later());
    assert_eq!(
        find(&unchanged, AVAILABLE).unwrap().last_transition_time,
        now()
    );

    let broken = Snapshot { agent: rollout(3, 1), ..healthy() };
    let flipped = conditions(&first, &broken, 3, &later());
    assert_eq!(
        find(&flipped, AVAILABLE).unwrap().last_transition_time,
        later()
    );
}

#[test]
fn observed_generation_tracks_the_spec_we_acted_on() {
    let c = conditions(&[], &healthy(), 7, &now());
    assert!(c.iter().all(|c| c.observed_generation == Some(7)));
}

#[test]
fn messages_say_what_is_missing() {
    let snap = Snapshot {
        agent: Some(Rollout { desired: 3, ready: 2, updated: 1 }),
        operator: Some(Rollout { desired: 1, ready: 0, updated: 1 }),
        crashlooping: vec!["cilium-a".into(), "cilium-b".into()],
        ..Default::default()
    };
    let c = eval(&snap);
    assert_eq!(find(&c, AVAILABLE).unwrap().message, "2/3 cilium agents ready");
    assert_eq!(
        find(&c, PROGRESSING).unwrap().message,
        "agents 2/3 ready (1 updated); operator 0/1 ready"
    );
    assert_eq!(
        find(&c, DEGRADED).unwrap().message,
        "2 pod(s) crash-looping past backoff: cilium-a, cilium-b"
    );

    let c = eval(&healthy());
    assert_eq!(find(&c, AVAILABLE).unwrap().message, "3/3 cilium agents ready");
    assert_eq!(find(&c, PROGRESSING).unwrap().message, "Cilium is at the desired version");
    assert_eq!(find(&c, DEGRADED).unwrap().message, "No degraded conditions");

    let snap = Snapshot {
        deferred: vec!["A/x".into(), "B/y".into()],
        ..healthy()
    };
    assert_eq!(
        find(&eval(&snap), PROGRESSING).unwrap().message,
        "waiting on cilium-operator to register: A/x, B/y"
    );
}

#[test]
fn conditions_are_looked_up_by_type() {
    let c = eval(&healthy());
    let types: Vec<&str> = c.iter().map(|c| c.type_.as_str()).collect();
    assert_eq!(types, [AVAILABLE, PROGRESSING, DEGRADED]);
    assert!(is_true(&c, AVAILABLE));
    assert!(!is_true(&c, DEGRADED));
    assert!(!is_true(&c, "Upgradeable"));
    assert!(find(&c, "Upgradeable").is_none());
}

#[test]
fn a_failure_leaves_availability_alone() {
    let failed = Snapshot { failure: Some("bad spec".into()), ..healthy() };
    let c = eval(&failed);
    assert!(is_true(&c, AVAILABLE));
    assert!(is_true(&c, DEGRADED));
    assert_eq!(find(&c, DEGRADED).unwrap().message, "bad spec");
}

#[test]
fn a_missing_object_is_not_an_error_but_any_other_refusal_is() {
    let refused = |code: u16| {
        KubeError::Api(ErrorResponse {
            status: "Failure".into(),
            message: "m".into(),
            reason: "r".into(),
            code,
        })
    };
    assert_eq!(optional(Ok(7)), Ok(Some(7)));
    assert_eq!(optional::<i32>(Err(refused(404))), Ok(None));
    assert_eq!(optional::<i32>(Err(refused(403))), Err(refused(403)));
    let lost = KubeError::Other("connection reset".into());
    assert_eq!(optional::<i32>(Err(lost.clone())), Err(lost));
}

#[test]
fn rollouts_are_read_off_the_workloads() {
    assert_eq!(agent_rollout(None), Rollout { desired: 0, ready: 0, updated: 0 });
    let status = DaemonSetStatus {
        desired_number_scheduled: 3,
        number_ready: 2,
        updated_number_scheduled: None,
    };
    assert_eq!(agent_rollout(Some(status)), Rollout { desired: 3, ready: 2, updated: 0 });

    assert_eq!(operator_rollout(None, None), Rollout { desired: 1, ready: 0, updated: 0 });
    let status = DeploymentStatus { ready_replicas: Some(2), updated_replicas: Some(1) };
    assert_eq!(operator_rollout(Some(2), Some(status)), Rollout { desired: 2, ready: 2, updated: 1 });
}

fn pod(name: Option<&str>, restart_count: i32, reason: Option<&str>) -> Pod {
    Pod {
        name: name.map(str::to_string),
        containers: vec![
            ContainerStatus { restart_count: 0, waiting_reason: None },
            ContainerStatus { restart_count, waiting_reason: reason.map(str::to_string) },
        ],
    }
}

#[test]
fn pods_count_as_crash_looping_from_the_third_restart() {
    let backoff = Some("CrashLoopBackOff");
    assert!(is_crashlooping(&pod(Some("a"), 3, backoff)));
    assert!(!is_crashlooping(&pod(Some("a"), 2, backoff)));
    assert!(!is_crashlooping(&pod(Some("a"), 9, Some("ImagePullBackOff"))));
    assert!(!is_crashlooping(&pod(Some("a"), 9, None)));
    assert!(!is_crashlooping(&Pod { name: None, containers: vec![] }));

    let pods = vec![
        pod(Some("a"), 3, backoff),
        pod(Some("b"), 0, None),
        pod(None, 5, backoff),
        pod(Some("c"), 4, backoff),
    ];
    assert_eq!(crashlooping(&pods), ["a", "c"]);

    let snap = snapshot(rollout(3, 3), rollout(1, 1), &pods);
    assert_eq!(snap.crashlooping, ["a", "c"]);
    assert!(snap.deferred.is_empty());
    assert_eq!(snap.failure, None);
}
