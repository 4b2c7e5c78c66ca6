//! The `cilium-operator` Deployment.

use network_operator::crd::{BgpPeer, BgpSpec, CiliumSpec, LoadBalancerSpec, Mode, NetworkSpec};
use network_operator::k8s::workload::Deployment;
use network_operator::modes::{resolve, EffectiveConfig};
use network_operator::render::object::Body;
use network_operator::render::operator::render;
use network_operator::render::CONFIG_MAP;

/// The example clusters, as a spec.
fn spec_for(mode: Mode) -> NetworkSpec {
    let load_balancer = match mode {
        Mode::Bgp => Some(LoadBalancerSpec {
            pools: Some(vec!["192.168.8.240/28".into()]),
            bgp: Some(BgpSpec {
                local_asn: Some(64512),
                peers: vec![BgpPeer { address: "192.168.8.1".into(), asn: 64512 }],
            }),
            ..Default::default()
        }),
        Mode::BareMetal => Some(LoadBalancerSpec {
            pools: Some(vec!["192.168.8.240/28".into()]),
            ..Default::default()
        }),
        _ => None,
    };

    NetworkSpec {
        mode,
        cluster_network: vec!["10.244.0.0/16".into()],
        service_network: vec!["10.96.0.0/12".into()],
        cilium: Some(CiliumSpec {
            k8s_service_host: Some("192.168.8.98".into()),
            k8s_service_port: Some(6443),
            load_balancer,
            ..Default::default()
        }),
        ..Default::default()
    }
}

fn cfg_for(mode: Mode) -> EffectiveConfig {
    resolve(&spec_for(mode)).expect("test fixtures must be valid")
}

fn deploy(cfg: &EffectiveConfig) -> Deployment {
    let obj = render(cfg).obj;
    match obj.body {
        Body::Deployment { spec } => Deployment { metadata: obj.metadata, spec },
        other => panic!("not a Deployment: {other:?}"),
    }
}

#[test]
fn operator_selector_matches_the_pod_template_labels() {
    let spec = deploy(&cfg_for(Mode::Overlay)).spec.unwrap();
    let selector = spec.selector.match_labels.unwrap();
    let labels = spec.template.metadata.unwrap().labels.unwrap();
    for (k, v) in selector.pairs() {
        assert_eq!(labels.get(k.as_str()), Some(v), "pod template must match selector on {k}");
    }
}

#[test]
fn host_networked_operator_never_rolls_two_pods_onto_one_node() {
    let spec = deploy(&cfg_for(Mode::Overlay)).spec.unwrap();
    assert_eq!(spec.replicas, Some(1));
    assert_eq!(spec.strategy.unwrap().type_.as_deref(), Some("Recreate"));

    let pod = spec.template.spec.unwrap();
    assert_eq!(pod.host_network, Some(true));
    let term = &pod
        .affinity
        .unwrap()
        .pod_anti_affinity
        .unwrap()
        .required_during_scheduling_ignored_during_execution
        .unwrap()[0];
    assert_eq!(term.topology_key, "kubernetes.io/hostname");
}

#[test]
fn runs_the_generic_operator_because_ipam_is_never_cloud() {
    let d = deploy(&cfg_for(Mode::Overlay));
    let c = &d.spec.unwrap().template.spec.unwrap().containers[0];
    assert_eq!(c.image.as_deref(), Some("quay.io/cilium/operator-generic:v1.19.6"));
    assert_eq!(c.command.as_deref(), Some(&["cilium-operator-generic".to_string()][..]));
}

#[test]
fn reads_the_same_config_map_as_the_agent() {
    let d = deploy(&cfg_for(Mode::Overlay));
    let pod = d.spec.unwrap().template.spec.unwrap();
    let vol = &pod.volumes.unwrap()[0];
    assert_eq!(vol.config_map.as_ref().unwrap().name, CONFIG_MAP);
    let m = &pod.containers[0].volume_mounts.as_ref().unwrap()[0];
    assert_eq!(m.mount_path, "/tmp/cilium/config-map");
    assert_eq!(m.read_only, Some(true));
}
