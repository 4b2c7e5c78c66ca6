//! One reconcile pass, from the spec to the status.

use network_operator::apply::ApplyError;
use network_operator::controller::{
    begin, requeue_after, stale, step, Error, Event, Pass, DEFERRED_RETRY, RESYNC, RETRY,
};
use network_operator::crd::conditions::{AVAILABLE, DEGRADED, PROGRESSING};
use network_operator::crd::{
    Announce, BgpPeer, BgpSpec, CiliumSpec, LoadBalancerSpec, Mode, Network, NetworkSpec,
    NetworkStatus,
};
use network_operator::health::{find, is_true, Rollout, Snapshot};
use network_operator::k8s::meta::{ObjectMeta, Time};
use network_operator::kube_error::{ErrorResponse, KubeError};
use network_operator::modes::resolve_network;
use network_operator::render::render;

const NOW: Time = Time { secs: 1_784_548_800, nanos: 0 };

fn network(mode: Mode) -> Network {
    let pools = Some(vec!["192.168.8.240/28".to_string()]);
    let load_balancer = match mode {
        Mode::Bgp => Some(LoadBalancerSpec {
            pools,
            bgp: Some(BgpSpec {
                local_asn: Some(64512),
                peers: vec![BgpPeer { address: "192.168.8.1".into(), asn: 64512 }],
            }),
            ..Default::default()
        }),
        Mode::BareMetal => Some(LoadBalancerSpec { pools, ..Default::default() }),
        _ => None,
    };
    Network {
        metadata: ObjectMeta {
            name: Some("cluster".into()),
            generation: Some(3),
            ..Default::default()
        },
        spec: NetworkSpec {
            mode,
            cluster_network: vec!["10.244.0.0/16".into()],
            service_network: vec!["10.96.0.0/12".into()],
            cilium: Some(CiliumSpec {
                k8s_service_host: Some("192.168.8.98".into()),
                load_balancer,
                ..Default::default()
            }),
            ..Default::default()
        },
        status: None,
    }
}

fn healthy() -> Snapshot {
    Snapshot {
        agent: Some(Rollout { desired: 3, ready: 3, updated: 3 }),
        operator: Some(Rollout { desired: 1, ready: 1, updated: 1 }),
        ..Default::default()
    }
}

fn forbidden() -> KubeError {
    KubeError::Api(ErrorResponse {
        status: "Failure".into(),
        message: "forbidden".into(),
        reason: "Forbidden".into(),
        code: 403,
    })
}

/// Run a pass that the cluster goes along with, and give the status it wrote.
fn succeed(net: &Network, deferred: Vec<String>) -> (NetworkStatus, u64) {
    let pass = begin(net);
    assert!(matches!(pass, Pass::Apply { .. }), "{pass:?}");
    let pass = step(pass, Event::Applied(Ok(deferred)), &NOW);
    assert!(matches!(pass, Pass::Reap { .. }), "{pass:?}");
    let pass = step(pass, Event::Reaped(Ok(())), &NOW);
    assert!(matches!(pass, Pass::Observe { .. }), "{pass:?}");
    let pass = step(pass, Event::Observed(Ok(healthy())), &NOW);
    let written = match &pass {
        Pass::Report { name, status, .. } => {
            assert_eq!(name, "cluster");
            status.clone()
        }
        other => panic!("not reporting: {other:?}"),
    };
    match step(pass, Event::Written(Ok(())), &NOW) {
        Pass::Finished { outcome } => (written, requeue_after(&outcome)),
        other => panic!("not finished: {other:?}"),
    }
}

/// Observe and report after a failure, and give the status and the error.
fn fail(pass: Pass, observed: Result<Snapshot, KubeError>) -> (NetworkStatus, Error) {
    let pass = step(pass, Event::Observed(observed), &NOW);
    let written = match &pass {
        Pass::Report { status, .. } => status.clone(),
        other => panic!("not reporting: {other:?}"),
    };
    match step(pass, Event::Written(Ok(())), &NOW) {
        Pass::Finished { outcome } => {
            assert_eq!(requeue_after(&outcome), RETRY);
            (written, outcome.unwrap_err())
        }
        other => panic!("not finished: {other:?}"),
    }
}

#[test]
fn a_successful_pass_applies_reaps_observes_and_reports() {
    let (status, seconds) = succeed(&network(Mode::Overlay), vec![]);
    assert_eq!(seconds, RESYNC);
    assert_eq!(RESYNC, 60);
    assert_eq!(status.applied_mode.as_deref(), Some("overlay"));
    assert_eq!(status.applied_datapath.as_deref(), Some("tunnel"));
    assert_eq!(status.observed_generation, Some(3));
    assert!(is_true(&status.conditions, AVAILABLE));
    assert!(!is_true(&status.conditions, PROGRESSING));
    assert!(!is_true(&status.conditions, DEGRADED));
    assert_eq!(status.conditions[0].last_transition_time, NOW);
}

#[test]
fn deferred_crs_bring_the_next_pass_forward() {
    let id = "CiliumBGPClusterConfig/storm".to_string();
    let (status, seconds) = succeed(&network(Mode::Bgp), vec![id]);
    assert_eq!(seconds, DEFERRED_RETRY);
    assert_eq!(DEFERRED_RETRY, 10);
    let progressing = find(&status.conditions, PROGRESSING).unwrap();
    assert_eq!(progressing.reason, "WaitingForCiliumCRDs");
    assert!(progressing.message.contains("CiliumBGPClusterConfig/storm"));
}

#[test]
fn the_objects_of_a_pass_are_those_of_the_render() {
    let net = network(Mode::BareMetal);
    let cfg = resolve_network(&net).unwrap();
    match begin(&net) {
        Pass::Apply { objects, .. } => assert_eq!(objects, render(&cfg)),
        other => panic!("not applying: {other:?}"),
    }
}

#[test]
fn an_invalid_spec_is_reported_and_nothing_is_applied() {
    let mut net = network(Mode::Overlay);
    net.status = Some(succeed(&net, vec![]).0);
    net.spec.cluster_network.clear();
    let (status, error) = fail(begin(&net), Ok(healthy()));
    assert_eq!(
        error.describe(),
        "invalid Network spec — spec.clusterNetwork: at least one pod CIDR is required"
    );
    let degraded = find(&status.conditions, DEGRADED).unwrap();
    assert_eq!(degraded.reason, "ReconcileFailed");
    assert_eq!(degraded.message, "spec.clusterNetwork: at least one pod CIDR is required");
    // The dataplane that runs goes on running, and the baseline stays.
    assert!(is_true(&status.conditions, AVAILABLE));
    assert_eq!(status.applied_cluster_network, ["10.244.0.0/16"]);
}

#[test]
fn an_immutable_change_is_refused_until_it_is_taken_back() {
    let mut net = network(Mode::Overlay);
    net.status = Some(succeed(&net, vec![]).0);
    net.spec.mode = Mode::Native;
    net.spec.service_network = vec!["172.30.0.0/16".into()];

    let (status, error) = fail(begin(&net), Ok(healthy()));
    let cause = "spec.mode (datapath family) is immutable after install (applied tunnel, \
                 requested native); spec.serviceNetwork is immutable after install (applied \
                 10.96.0.0/12, requested 172.30.0.0/16)";
    assert_eq!(error, Error::Immutable(cause.to_string()));
    assert_eq!(error.describe(), format!("rejected: {cause}"));
    assert_eq!(find(&status.conditions, DEGRADED).unwrap().message, cause);
    assert_eq!(status.applied_datapath.as_deref(), Some("tunnel"));

    // Refused again on the next pass, and accepted once it is taken back.
    net.status = Some(status);
    assert!(matches!(begin(&net), Pass::Explain { .. }));
    net.spec.mode = Mode::Encrypted;
    net.spec.service_network = vec!["10.96.0.0/12".into()];
    assert!(matches!(begin(&net), Pass::Apply { .. }));
}

#[test]
fn a_failed_apply_is_reported_even_when_nothing_can_be_observed() {
    let failure = ApplyError::Api { id: "DaemonSet/kube-system/cilium".into(), source: forbidden() };
    let pass = step(begin(&network(Mode::Overlay)), Event::Applied(Err(failure.clone())), &NOW);
    let (status, error) = fail(pass, Err(forbidden()));
    assert_eq!(error, Error::Apply(failure.clone()));
    assert_eq!(error.describe(), failure.describe());
    assert_eq!(find(&status.conditions, DEGRADED).unwrap().message, failure.describe());
    assert_eq!(find(&status.conditions, AVAILABLE).unwrap().reason, "Installing");
    assert_eq!(status.applied_mode, None);
}

#[test]
fn a_failed_reap_observation_or_write_ends_the_pass() {
    let failure = ApplyError::Api { id: "X/y".into(), source: forbidden() };
    let reaping = || step(begin(&network(Mode::Overlay)), Event::Applied(Ok(vec![])), &NOW);
    assert_eq!(
        step(reaping(), Event::Reaped(Err(failure.clone())), &NOW),
        Pass::Finished { outcome: Err(Error::Apply(failure)) }
    );

    let observing = || step(reaping(), Event::Reaped(Ok(())), &NOW);
    assert_eq!(
        step(observing(), Event::Observed(Err(forbidden())), &NOW),
        Pass::Finished { outcome: Err(Error::Kube(forbidden())) }
    );

    let reporting = step(observing(), Event::Observed(Ok(healthy())), &NOW);
    match step(reporting, Event::Written(Err(forbidden())), &NOW) {
        Pass::Finished { outcome } => {
            let error = outcome.unwrap_err();
            assert_eq!(error, Error::Kube(forbidden()));
            assert!(error.describe().starts_with("kubernetes: ApiError: forbidden: Forbidden"));
        }
        other => panic!("not finished: {other:?}"),
    }
}

#[test]
fn an_event_that_is_not_awaited_changes_nothing() {
    let net = network(Mode::Overlay);
    let pass = step(begin(&net), Event::Reaped(Ok(())), &NOW);
    assert_eq!(pass, begin(&net));
}

#[test]
fn switching_a_feature_off_reaps_what_it_rendered() {
    let ids = |net: &Network| -> Vec<String> {
        let cfg = resolve_network(net).unwrap();
        stale(&cfg, &render(&cfg)).iter().map(|r| r.id()).collect()
    };
    assert_eq!(
        ids(&network(Mode::Overlay)),
        [
            "CiliumBGPAdvertisement/storm-advertisements",
            "CiliumBGPClusterConfig/storm",
            "CiliumBGPPeerConfig/storm-peers",
            "CiliumL2AnnouncementPolicy/storm-default",
            "CiliumLoadBalancerIPPool/storm-default",
        ]
    );
    assert_eq!(
        ids(&network(Mode::BareMetal)),
        [
            "CiliumBGPAdvertisement/storm-advertisements",
            "CiliumBGPClusterConfig/storm",
            "CiliumBGPPeerConfig/storm-peers",
        ]
    );
    assert_eq!(ids(&network(Mode::Bgp)), ["CiliumL2AnnouncementPolicy/storm-default"]);

    let mut quiet = network(Mode::BareMetal);
    let lb = quiet.spec.cilium.as_mut().unwrap().load_balancer.as_mut().unwrap();
    lb.announce = Some(Announce::Off);
    assert_eq!(ids(&quiet).len(), 4);
}

#[test]
fn transition_times_survive_passes_without_a_flip() {
    let mut net = network(Mode::Overlay);
    net.status = Some(succeed(&net, vec![]).0);
    let later = Time { secs: NOW.secs + 3600, nanos: 5 };
    let pass = step(begin(&net), Event::Applied(Ok(vec![])), &later);
    let pass = step(pass, Event::Reaped(Ok(())), &later);
    let mut seen = healthy();
    seen.operator = Some(Rollout { desired: 1, ready: 0, updated: 1 });
    match step(pass, Event::Observed(Ok(seen)), &later) {
        Pass::Report { status, .. } => {
            let time = |t: &str| find(&status.conditions, t).unwrap().last_transition_time;
            assert_eq!(time(AVAILABLE), later);
            assert_eq!(time(PROGRESSING), later);
            assert_eq!(time(DEGRADED), NOW);
        }
        other => panic!("not reporting: {other:?}"),
    }
}
