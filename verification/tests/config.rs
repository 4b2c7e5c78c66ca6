//! The keys of `cilium-config`.

use network_operator::crd::{BgpPeer, BgpSpec, CiliumSpec, HostRouting, IpamMode, LoadBalancerSpec, Mode, NetworkSpec};
use network_operator::modes::{resolve, EffectiveConfig};
use network_operator::render::config::{data, TUNNEL_PORT};
use network_operator::string_map::StringMap;

/// The example clusters, as a spec.
fn spec_for(mode: Mode) -> NetworkSpec {
    let load_balancer = match mode {
        Mode::Bgp => Some(LoadBalancerSpec {
            pools: Some(vec!["192.168.8.240/28".into()]),
            bgp: Some(BgpSpec {
                local_asn: Some(64512),
                peers: vec![BgpPeer { address: "192.168.8.1".into(), asn: 64512 }],
            }),
            ..Default::default()
        }),
        Mode::BareMetal => Some(LoadBalancerSpec {
            pools: Some(vec!["192.168.8.240/28".into()]),
            ..Default::default()
        }),
        _ => None,
    };

    NetworkSpec {
        mode,
        cluster_network: vec!["10.244.0.0/16".into()],
        service_network: vec!["10.96.0.0/12".into()],
        cilium: Some(CiliumSpec {
            k8s_service_host: Some("192.168.8.98".into()),
            k8s_service_port: Some(6443),
            load_balancer,
            ..Default::default()
        }),
        ..Default::default()
    }
}

fn cfg_for(mode: Mode) -> EffectiveConfig {
    resolve(&spec_for(mode)).expect("test fixtures must be valid")
}

fn at(d: &StringMap, key: &str) -> String {
    d.get(key).unwrap_or_else(|| panic!("no key {key}")).clone()
}

#[test]
fn overlay_sets_vxlan_and_no_native_cidr() {
    let d = data(&cfg_for(Mode::Overlay));
    assert_eq!(at(&d, "routing-mode"), "tunnel");
    assert_eq!(at(&d, "tunnel-protocol"), "vxlan");
    assert_eq!(at(&d, "tunnel-port"), TUNNEL_PORT);
    assert!(!d.contains_key("ipv4-native-routing-cidr"));
    assert!(!d.contains_key("auto-direct-node-routes"));
}

#[test]
fn native_sets_the_routing_cidr_and_direct_routes() {
    let d = data(&cfg_for(Mode::Native));
    assert_eq!(at(&d, "routing-mode"), "native");
    assert_eq!(at(&d, "ipv4-native-routing-cidr"), "10.244.0.0/16");
    assert_eq!(at(&d, "auto-direct-node-routes"), "true");
    assert!(!d.contains_key("tunnel-protocol"));
}

#[test]
fn cluster_pool_carries_the_pod_cidr_and_node_mask() {
    let d = data(&cfg_for(Mode::Overlay));
    assert_eq!(at(&d, "ipam"), "cluster-pool");
    assert_eq!(at(&d, "cluster-pool-ipv4-cidr"), "10.244.0.0/16");
    assert_eq!(at(&d, "cluster-pool-ipv4-mask-size"), "24");
}

#[test]
fn kubernetes_ipam_omits_the_cluster_pool_keys() {
    let mut cfg = cfg_for(Mode::Overlay);
    cfg.ipam = IpamMode::Kubernetes;
    let d = data(&cfg);
    assert_eq!(at(&d, "ipam"), "kubernetes");
    assert!(!d.contains_key("cluster-pool-ipv4-cidr"));
    assert!(!d.contains_key("cluster-pool-ipv4-mask-size"));
}

#[test]
fn encrypted_mode_turns_on_wireguard_only() {
    let d = data(&cfg_for(Mode::Encrypted));
    assert_eq!(at(&d, "enable-wireguard"), "true");
    assert_eq!(at(&d, "enable-ipsec"), "false");
}

#[test]
fn announcements_are_mutually_exclusive() {
    let bgp = data(&cfg_for(Mode::Bgp));
    assert_eq!(at(&bgp, "enable-bgp-control-plane"), "true");
    assert_eq!(at(&bgp, "enable-l2-announcements"), "false");
    assert_eq!(at(&bgp, "enable-lb-ipam"), "true");

    let bm = data(&cfg_for(Mode::BareMetal));
    assert_eq!(at(&bm, "enable-l2-announcements"), "true");
    assert_eq!(at(&bm, "enable-bgp-control-plane"), "false");

    let overlay = data(&cfg_for(Mode::Overlay));
    assert_eq!(at(&overlay, "enable-lb-ipam"), "false");
    assert_eq!(at(&overlay, "enable-l2-announcements"), "false");
    assert_eq!(at(&overlay, "enable-bgp-control-plane"), "false");
}

#[test]
fn mtu_zero_means_auto_and_is_omitted() {
    let mut cfg = cfg_for(Mode::Overlay);
    assert_eq!(cfg.mtu, 0);
    assert!(!data(&cfg).contains_key("mtu"));
    cfg.mtu = 9000;
    assert_eq!(at(&data(&cfg), "mtu"), "9000");
}

#[test]
fn legacy_host_routing_flips_the_bpf_fast_path_off() {
    let mut cfg = cfg_for(Mode::Overlay);
    assert_eq!(at(&data(&cfg), "enable-host-legacy-routing"), "false");
    cfg.host_routing = HostRouting::Legacy;
    assert_eq!(at(&data(&cfg), "enable-host-legacy-routing"), "true");
}

#[test]
fn apiserver_endpoint_is_propagated_for_kube_proxy_replacement() {
    let d = data(&cfg_for(Mode::Overlay));
    assert_eq!(at(&d, "kube-proxy-replacement"), "true");
    assert_eq!(at(&d, "k8s-service-host"), "192.168.8.98");
    assert_eq!(at(&d, "k8s-service-port"), "6443");
}

#[test]
fn the_keys_follow_from_routing_ipam_and_mtu() {
    let keys = |spec: &NetworkSpec| -> Vec<String> {
        let cfg = resolve(spec).unwrap();
        data(&cfg).pairs().iter().map(|(key, _)| key.clone()).collect()
    };
    let overlay = keys(&spec_for(Mode::Overlay));
    assert_eq!(overlay.len(), 47);
    assert_eq!(keys(&spec_for(Mode::Encrypted)), overlay);
    assert_eq!(keys(&spec_for(Mode::BareMetal)), overlay);
    let native = keys(&spec_for(Mode::Native));
    assert_ne!(native, overlay);
    assert_eq!(keys(&spec_for(Mode::Bgp)), native);

    let mut spec = spec_for(Mode::Overlay);
    spec.cilium.as_mut().unwrap().mtu = Some(1450);
    assert_eq!(keys(&spec).len(), overlay.len() + 1);
    spec.cilium.as_mut().unwrap().mtu = Some(9000);
    assert_eq!(keys(&spec).len(), overlay.len() + 1);
}
