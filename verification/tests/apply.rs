//! Applying objects: what the apiserver's answers mean.

use network_operator::apply::{
    after, deleted, is_kind_missing, settle, ApplyError, Reply, Request, Step,
};
use network_operator::crd::{CiliumSpec, LoadBalancerSpec, Mode, NetworkSpec};
use network_operator::kube_error::{ErrorResponse, KubeError};
use network_operator::modes::resolve;
use network_operator::render::{render, Rendered};

fn err(code: u16, message: &str) -> ErrorResponse {
    ErrorResponse {
        status: "Failure".into(),
        message: message.into(),
        reason: "NotFound".into(),
        code,
    }
}

#[test]
fn recognises_an_unregistered_kind() {
    assert!(is_kind_missing(&err(
        404,
        "the server could not find the requested resource"
    )));
    assert!(is_kind_missing(&err(404, "")));
    assert!(is_kind_missing(&err(404, "no matches for kind \"CiliumBGPPeerConfig\"")));
}

#[test]
fn a_missing_named_object_is_not_a_missing_kind() {
    assert!(!is_kind_missing(&err(
        404,
        "ciliumloadbalancerippools.cilium.io \"storm-default\" not found"
    )));
    assert!(!is_kind_missing(&err(403, "")));
}

fn refused(code: u16, message: &str) -> Reply {
    Reply::Failed(KubeError::Api(err(code, message)))
}

fn stored(version: &str) -> Reply {
    Reply::Stored { resource_version: Some(version.to_string()) }
}

const NOT_FOUND: &str = "daemonsets.apps \"cilium\" not found";

#[test]
fn a_patch_that_goes_through_is_all_there_is() {
    assert_eq!(after("DaemonSet/cilium", &Request::Patch, stored("1")), Step::Applied);
}

#[test]
fn a_missing_object_is_created_directly() {
    let id = "DaemonSet/cilium";
    assert_eq!(after(id, &Request::Patch, refused(404, NOT_FOUND)), Step::Ask(Request::Create));
    assert_eq!(after(id, &Request::Create, stored("1")), Step::Applied);
}

#[test]
fn a_missing_kind_is_reported_as_such() {
    assert_eq!(
        after("CiliumBGPClusterConfig/storm", &Request::Patch, refused(404, "")),
        Step::Failed(ApplyError::KindNotFound { id: "CiliumBGPClusterConfig/storm".into() })
    );
}

#[test]
fn without_patch_the_object_is_created_or_replaced_at_its_current_version() {
    let id = "ConfigMap/cilium-config";
    for code in [405, 501] {
        assert_eq!(
            after(id, &Request::Patch, refused(code, "no patch")),
            Step::Ask(Request::Create)
        );
    }
    assert_eq!(after(id, &Request::Create, refused(409, "exists")), Step::Ask(Request::Get));
    let replace = Request::Replace { resource_version: Some("41".into()) };
    assert_eq!(after(id, &Request::Get, stored("41")), Step::Ask(replace.clone()));
    assert_eq!(after(id, &replace, stored("42")), Step::Applied);
}

#[test]
fn every_other_error_stands_under_the_id() {
    let id = "ConfigMap/cilium-config";
    for asked in [
        Request::Patch,
        Request::Create,
        Request::Get,
        Request::Replace { resource_version: None },
    ] {
        let source = KubeError::Api(err(403, "forbidden"));
        assert_eq!(
            after(id, &asked, Reply::Failed(source.clone())),
            Step::Failed(ApplyError::Api { id: id.into(), source })
        );
        let lost = KubeError::Other("connection reset".into());
        assert_eq!(
            after(id, &asked, Reply::Failed(lost.clone())),
            Step::Failed(ApplyError::Api { id: id.into(), source: lost })
        );
    }
}

#[test]
fn errors_read_as_the_client_writes_them() {
    let e = ApplyError::Api {
        id: "DaemonSet/cilium".into(),
        source: KubeError::Api(err(403, "not \"allowed\"")),
    };
    assert_eq!(
        e.describe(),
        "DaemonSet/cilium: ApiError: not \"allowed\": NotFound (ErrorResponse { status: \
         \"Failure\", message: \"not \\\"allowed\\\"\", reason: \"NotFound\", code: 403 })"
    );
    let e = ApplyError::Api {
        id: "DaemonSet/cilium".into(),
        source: KubeError::Other("timed out".into()),
    };
    assert_eq!(e.describe(), "DaemonSet/cilium: timed out");
    let e = ApplyError::KindNotFound { id: "CiliumBGPPeerConfig/storm-peers".into() };
    assert_eq!(e.describe(), "CiliumBGPPeerConfig/storm-peers: kind not registered yet");
}

fn objects() -> Vec<Rendered> {
    let cfg = resolve(&NetworkSpec {
        mode: Mode::BareMetal,
        cluster_network: vec!["10.244.0.0/16".into()],
        service_network: vec!["10.96.0.0/12".into()],
        cilium: Some(CiliumSpec {
            k8s_service_host: Some("192.168.8.98".into()),
            load_balancer: Some(LoadBalancerSpec {
                pools: Some(vec!["192.168.8.240/28".into()]),
                ..Default::default()
            }),
            ..Default::default()
        }),
        ..Default::default()
    })
    .unwrap();
    render(&cfg)
}

#[test]
fn only_cilium_crs_are_put_off_for_a_missing_kind() {
    let objects = objects();
    let missing = |r: &Rendered| Err(ApplyError::KindNotFound { id: r.id() });
    let mut deferred: Vec<String> = Vec::new();

    let daemon_set = &objects[9];
    assert_eq!(daemon_set.id(), "DaemonSet/kube-system/cilium");
    assert_eq!(settle(&mut deferred, daemon_set, Ok(())), None);
    assert_eq!(
        settle(&mut deferred, daemon_set, missing(daemon_set)),
        Some(ApplyError::KindNotFound { id: "DaemonSet/kube-system/cilium".into() })
    );
    assert!(deferred.is_empty());

    let pool = &objects[11];
    let policy = &objects[12];
    assert_eq!(settle(&mut deferred, pool, missing(pool)), None);
    assert_eq!(settle(&mut deferred, policy, missing(policy)), None);
    assert_eq!(
        deferred,
        ["CiliumLoadBalancerIPPool/storm-default", "CiliumL2AnnouncementPolicy/storm-default"]
    );

    let forbidden = ApplyError::Api {
        id: pool.id(),
        source: KubeError::Api(err(403, "forbidden")),
    };
    assert_eq!(settle(&mut deferred, pool, Err(forbidden.clone())), Some(forbidden));
    assert_eq!(deferred.len(), 2);
}

#[test]
fn deleting_what_is_not_there_is_success() {
    assert_eq!(deleted("X/y", Ok(())), Ok(()));
    assert_eq!(deleted("X/y", Err(KubeError::Api(err(404, "x \"y\" not found")))), Ok(()));
    assert_eq!(deleted("X/y", Err(KubeError::Api(err(404, "")))), Ok(()));
    let source = KubeError::Api(err(409, "busy"));
    assert_eq!(
        deleted("X/y", Err(source.clone())),
        Err(ApplyError::Api { id: "X/y".into(), source })
    );
}

#[test]
fn a_pass_ends_with_its_first_failure() {
    let objects = objects();
    let forbidden = |r: &Rendered| {
        let source = KubeError::Api(err(403, "forbidden"));
        Err(ApplyError::Api { id: r.id(), source })
    };
    let mut deferred: Vec<String> = Vec::new();
    let mut stopped: Option<ApplyError> = None;
    for (i, r) in objects.iter().enumerate() {
        let outcome = if i >= 9 { forbidden(r) } else { Ok(()) };
        stopped = settle(&mut deferred, r, outcome);
        if stopped.is_some() {
            break;
        }
    }
    assert_eq!(stopped, Some(forbidden(&objects[9]).unwrap_err()));
    assert!(deferred.is_empty());
}
