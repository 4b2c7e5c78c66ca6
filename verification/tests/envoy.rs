//! The standalone Envoy.

use network_operator::crd::{BgpPeer, BgpSpec, CiliumSpec, LoadBalancerSpec, Mode, NetworkSpec};
use network_operator::k8s::pod::IntOrString;
use network_operator::modes::{resolve, EffectiveConfig};
use network_operator::render::envoy::{
    daemon_set, render, service, BOOTSTRAP, HEALTH_PORT, METRICS_PORT, SOCKET_DIR,
};

/// The example clusters, as a spec.
fn spec_for(mode: Mode) -> NetworkSpec {
    let load_balancer = match mode {
        Mode::Bgp => Some(LoadBalancerSpec {
            pools: Some(vec!["192.168.8.240/28".into()]),
            bgp: Some(BgpSpec {
                local_asn: Some(64512),
                peers: vec![BgpPeer { address: "192.168.8.1".into(), asn: 64512 }],
            }),
            ..Default::default()
        }),
        Mode::BareMetal => Some(LoadBalancerSpec {
            pools: Some(vec!["192.168.8.240/28".into()]),
            ..Default::default()
        }),
        _ => None,
    };

    NetworkSpec {
        mode,
        cluster_network: vec!["10.244.0.0/16".into()],
        service_network: vec!["10.96.0.0/12".into()],
        cilium: Some(CiliumSpec {
            k8s_service_host: Some("192.168.8.98".into()),
            k8s_service_port: Some(6443),
            load_balancer,
            ..Default::default()
        }),
        ..Default::default()
    }
}

fn cfg_for(mode: Mode) -> EffectiveConfig {
    resolve(&spec_for(mode)).expect("test fixtures must be valid")
}

fn enabled() -> EffectiveConfig {
    let mut cfg = cfg_for(Mode::Overlay);
    cfg.envoy = true;
    cfg
}

#[test]
fn renders_nothing_unless_enabled() {
    assert!(render(&cfg_for(Mode::Overlay)).is_empty());
}

#[test]
fn renders_the_full_object_set_when_enabled() {
    let ids: Vec<_> = render(&enabled()).iter().map(|r| r.id()).collect();
    assert_eq!(
        ids,
        vec![
            "ServiceAccount/kube-system/cilium-envoy",
            "ConfigMap/kube-system/cilium-envoy-config",
            "DaemonSet/kube-system/cilium-envoy",
            "Service/kube-system/cilium-envoy",
        ]
    );
}

#[test]
fn bootstrap_asset_is_valid_json_with_the_xds_socket_and_both_listeners() {
    let v: serde_json::Value = serde_json::from_str(BOOTSTRAP).expect("bootstrap must be JSON");

    // xDS is reached over the agent's unix socket, not the network.
    let clusters = v["staticResources"]["clusters"].as_array().unwrap();
    let xds = clusters
        .iter()
        .find(|c| c["name"] == "xds-grpc-cilium")
        .expect("xds cluster");
    assert_eq!(
        xds["loadAssignment"]["endpoints"][0]["lbEndpoints"][0]["endpoint"]["address"]["pipe"]
            ["path"],
        format!("{SOCKET_DIR}/xds.sock")
    );

    // The health listener is what our probes hit; the metrics listener is
    // what the Service exposes. Both ports must line up with the DaemonSet.
    let listeners = v["staticResources"]["listeners"].as_array().unwrap();
    let ports: Vec<i64> = listeners
        .iter()
        .map(|l| l["address"]["socketAddress"]["portValue"].as_i64().unwrap())
        .collect();
    assert!(ports.contains(&(HEALTH_PORT as i64)), "health port missing: {ports:?}");
    assert!(ports.contains(&(METRICS_PORT as i64)), "metrics port missing: {ports:?}");
}

#[test]
fn bootstrap_carries_no_cluster_specific_values() {
    // If this ever fails, the asset has been replaced with one captured
    // from a cluster whose addressing leaked in, and it needs templating.
    for needle in ["192.168.8.", "10.244.", "10.96.", ".g8.lo"] {
        assert!(
            !BOOTSTRAP.contains(needle),
            "bootstrap contains cluster-specific value {needle:?}"
        );
    }
}

#[test]
fn envoy_image_is_independent_of_the_cilium_version() {
    let mut cfg = enabled();
    cfg.version = "1.20.0".into();
    let ds = daemon_set(&cfg);
    let image = ds.spec.unwrap().template.spec.unwrap().containers[0]
        .image
        .clone()
        .unwrap();
    // Bumping Cilium must not invent an envoy tag that does not exist.
    assert!(!image.contains("1.20.0"), "envoy image tracked the cilium version: {image}");
    assert!(image.starts_with("quay.io/cilium/cilium-envoy:v"));
}

#[test]
fn image_can_be_overridden_wholesale() {
    let mut cfg = enabled();
    cfg.envoy_image = "mirror.local/cilium-envoy:v1.36.9-custom".into();
    let ds = daemon_set(&cfg);
    assert_eq!(
        ds.spec.unwrap().template.spec.unwrap().containers[0].image.as_deref(),
        Some("mirror.local/cilium-envoy:v1.36.9-custom")
    );
}

#[test]
fn scheduled_only_where_an_agent_is_and_never_twice_per_node() {
    let ds = daemon_set(&enabled());
    let a = ds.spec.unwrap().template.spec.unwrap().affinity.unwrap();

    let with_agent = &a.pod_affinity.unwrap().required_during_scheduling_ignored_during_execution.unwrap()[0];
    assert_eq!(
        with_agent.label_selector.as_ref().unwrap().match_labels.as_ref().unwrap().get("k8s-app").unwrap(),
        "cilium"
    );

    let not_itself = &a.pod_anti_affinity.unwrap().required_during_scheduling_ignored_during_execution.unwrap()[0];
    assert_eq!(not_itself.topology_key, "kubernetes.io/hostname");

    let no_schedule = &a.node_affinity.unwrap().required_during_scheduling_ignored_during_execution.unwrap()
        .node_selector_terms[0].match_expressions.clone().unwrap()[0];
    assert_eq!(no_schedule.key, "cilium.io/no-schedule");
    assert_eq!(no_schedule.operator, "NotIn");
}

/// Envoy needs AppArmor unconfined, but — unlike the agent — the
/// known-good install leaves seccomp at the default.
#[test]
fn pod_is_apparmor_unconfined_but_keeps_the_default_seccomp() {
    let ds = daemon_set(&enabled());
    let sc = ds
        .spec
        .unwrap()
        .template
        .spec
        .unwrap()
        .security_context
        .expect("pod-level securityContext is required");
    assert_eq!(sc.app_armor_profile.unwrap().type_, "Unconfined");
    assert!(sc.seccomp_profile.is_none(), "envoy does not unconfine seccomp");
}

#[test]
fn envoy_every_mount_resolves_to_a_declared_volume() {
    let ds = daemon_set(&enabled());
    let pod = ds.spec.unwrap().template.spec.unwrap();
    let declared: Vec<_> = pod.volumes.unwrap().into_iter().map(|v| v.name).collect();
    for m in pod.containers[0].volume_mounts.iter().flatten() {
        assert!(declared.contains(&m.name), "undeclared volume {}", m.name);
    }
}

#[test]
fn probes_and_metrics_ports_agree_with_the_service() {
    let ds = daemon_set(&enabled());
    let c = &ds.spec.unwrap().template.spec.unwrap().containers[0];
    assert_eq!(
        c.liveness_probe.as_ref().unwrap().http_get.as_ref().unwrap().port,
        IntOrString::Int(HEALTH_PORT)
    );
    assert_eq!(c.ports.as_ref().unwrap()[0].container_port, METRICS_PORT);

    let svc = service(&enabled());
    let port = &svc.spec.unwrap().ports.unwrap()[0];
    assert_eq!(port.port, METRICS_PORT);
    assert_eq!(port.target_port, Some(IntOrString::Int(METRICS_PORT)));
}
