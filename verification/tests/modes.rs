//! Mode resolution and the rules on a resolved config.

use network_operator::crd::{
    Announce, BgpPeer, BgpSpec, CiliumSpec, EncryptionSpec, EncryptionType, EnvoySpec, IpamMode,
    IpamSpec, LoadBalancerSpec, Mode, NetworkSpec, RoutingMode, RoutingSpec,
};
use network_operator::address::CidrReading;
use network_operator::modes::validation::{read, validate_with};
use network_operator::modes::{
    fill, resolve, DEFAULT_CILIUM_VERSION, DEFAULT_ENVOY_TAG, DEFAULT_REGISTRY,
};



fn spec(mode: Mode) -> NetworkSpec {
    NetworkSpec {
        mode,
        cluster_network: vec!["10.244.0.0/16".into()],
        service_network: vec!["10.96.0.0/12".into()],
        cilium: Some(CiliumSpec {
            k8s_service_host: Some("192.168.8.98".into()),
            ..Default::default()
        }),
        ..Default::default()
    }
}

#[test]
fn overlay_is_the_documented_default() {
    let cfg = resolve(&spec(Mode::Overlay)).unwrap();
    assert_eq!(cfg.routing, RoutingMode::Tunnel);
    assert_eq!(cfg.ipam, IpamMode::ClusterPool);
    assert!(cfg.kube_proxy_replacement);
    assert_eq!(cfg.encryption, EncryptionType::Off);
    assert!(!cfg.lb_ipam);
    assert_eq!(cfg.announce, Announce::Off);
    assert!(!cfg.auto_direct_node_routes);
    assert_eq!(cfg.version, DEFAULT_CILIUM_VERSION);
}

#[test]
fn every_mode_matches_the_readme_table() {
    let native = resolve(&spec(Mode::Native)).unwrap();
    assert_eq!(native.routing, RoutingMode::Native);
    assert!(native.auto_direct_node_routes);
    assert!(!native.lb_ipam);

    let encrypted = resolve(&spec(Mode::Encrypted)).unwrap();
    assert_eq!(encrypted.encryption, EncryptionType::Wireguard);
    assert_eq!(encrypted.routing, RoutingMode::Tunnel);

    let mut bm = spec(Mode::BareMetal);
    bm.cilium.as_mut().unwrap().load_balancer = Some(LoadBalancerSpec {
        pools: Some(vec!["192.168.8.240/28".into()]),
        ..Default::default()
    });
    let bm = resolve(&bm).unwrap();
    assert!(bm.lb_ipam);
    assert_eq!(bm.announce, Announce::L2);
    assert_eq!(bm.routing, RoutingMode::Tunnel);
}

#[test]
fn bgp_mode_defaults_to_native_lb_ipam_and_bgp_announce() {
    let mut s = spec(Mode::Bgp);
    s.cilium.as_mut().unwrap().load_balancer = Some(LoadBalancerSpec {
        pools: Some(vec!["192.168.8.240/28".into()]),
        bgp: Some(BgpSpec {
            local_asn: Some(64512),
            peers: vec![BgpPeer { address: "192.168.8.1".into(), asn: 64512 }],
        }),
        ..Default::default()
    });
    let cfg = resolve(&s).unwrap();
    assert_eq!(cfg.routing, RoutingMode::Native);
    assert!(cfg.lb_ipam);
    assert_eq!(cfg.announce, Announce::Bgp);
    assert_eq!(cfg.bgp_local_asn, 64512);
    assert_eq!(cfg.bgp_peers, vec![("192.168.8.1".to_string(), 64512)]);
}

#[test]
fn explicit_fields_override_mode_defaults() {
    let mut s = spec(Mode::Overlay);
    let c = s.cilium.as_mut().unwrap();
    c.routing = Some(RoutingSpec { mode: Some(RoutingMode::Native) });
    c.kube_proxy_replacement = Some(false);
    c.encryption = Some(EncryptionSpec { kind: Some(EncryptionType::Wireguard) });
    c.ipam = Some(IpamSpec {
        mode: Some(IpamMode::Kubernetes),
        cluster_pool_ipv4_mask_size: None,
    });
    c.version = Some("1.18.0".into());

    let cfg = resolve(&s).unwrap();
    assert_eq!(cfg.mode, Mode::Overlay);
    assert_eq!(cfg.routing, RoutingMode::Native);
    assert!(!cfg.kube_proxy_replacement);
    assert_eq!(cfg.encryption, EncryptionType::Wireguard);
    assert_eq!(cfg.ipam, IpamMode::Kubernetes);
    assert_eq!(cfg.version, "1.18.0");
}

#[test]
fn image_tag_is_normalized_to_cilium_convention() {
    let cfg = resolve(&spec(Mode::Overlay)).unwrap();
    assert_eq!(cfg.agent_image(), "quay.io/cilium/cilium:v1.19.6");
    assert_eq!(cfg.operator_image(), "quay.io/cilium/operator-generic:v1.19.6");

    let mut s = spec(Mode::Overlay);
    s.cilium.as_mut().unwrap().version = Some("v1.18.1".into());
    s.cilium.as_mut().unwrap().registry = Some("mirror.local/cilium".into());
    let cfg = resolve(&s).unwrap();
    assert_eq!(cfg.agent_image(), "mirror.local/cilium/cilium:v1.18.1");
}

fn err_field(s: &NetworkSpec) -> String {
    resolve(s).unwrap_err().field
}

#[test]
fn rejects_missing_or_malformed_networks() {
    let mut s = spec(Mode::Overlay);
    s.cluster_network.clear();
    assert_eq!(err_field(&s), "spec.clusterNetwork");

    let mut s = spec(Mode::Overlay);
    s.cluster_network = vec!["not-a-cidr".into()];
    assert_eq!(err_field(&s), "spec.clusterNetwork");

    let mut s = spec(Mode::Overlay);
    s.service_network.clear();
    assert_eq!(err_field(&s), "spec.serviceNetwork");
}

#[test]
fn rejects_apiserver_endpoint_omission() {
    let mut s = spec(Mode::Overlay);
    s.cilium.as_mut().unwrap().k8s_service_host = None;
    assert_eq!(err_field(&s), "spec.cilium.k8sServiceHost");
}

#[test]
fn rejects_node_mask_that_cannot_carve_the_pod_cidr() {
    let mut s = spec(Mode::Overlay);
    s.cilium.as_mut().unwrap().ipam = Some(IpamSpec {
        mode: None,
        cluster_pool_ipv4_mask_size: Some(16),
    });
    assert_eq!(err_field(&s), "spec.cilium.ipam.clusterPoolIPv4MaskSize");
}

#[test]
fn rejects_announcing_without_lb_ipam_and_bgp_over_tunnel() {
    let mut s = spec(Mode::Overlay);
    s.cilium.as_mut().unwrap().load_balancer = Some(LoadBalancerSpec {
        ipam: Some(false),
        announce: Some(Announce::L2),
        ..Default::default()
    });
    assert_eq!(err_field(&s), "spec.cilium.loadBalancer.announce");

    // bgp announce forced on top of the overlay mode's tunnel datapath
    let mut s = spec(Mode::Overlay);
    s.cilium.as_mut().unwrap().load_balancer = Some(LoadBalancerSpec {
        ipam: Some(true),
        pools: Some(vec!["192.168.8.240/28".into()]),
        announce: Some(Announce::Bgp),
        bgp: Some(BgpSpec {
            local_asn: Some(64512),
            peers: vec![BgpPeer { address: "192.168.8.1".into(), asn: 64512 }],
        }),
    });
    assert_eq!(err_field(&s), "spec.cilium.routing.mode");
}

#[test]
fn rejects_bgp_without_peers_and_lb_ipam_without_pools() {
    let mut s = spec(Mode::Bgp);
    s.cilium.as_mut().unwrap().load_balancer = Some(LoadBalancerSpec {
        pools: Some(vec!["192.168.8.240/28".into()]),
        bgp: Some(BgpSpec { local_asn: Some(64512), peers: vec![] }),
        ..Default::default()
    });
    assert_eq!(err_field(&s), "spec.cilium.loadBalancer.bgp.peers");

    // bgp mode turns LB-IPAM on by default, so omitting pools must fail
    let s = spec(Mode::Bgp);
    assert_eq!(err_field(&s), "spec.cilium.loadBalancer.pools");
}

#[test]
fn rejects_unimplemented_features_rather_than_installing_something_broken() {
    let mut s = spec(Mode::Overlay);
    s.cilium.as_mut().unwrap().encryption =
        Some(EncryptionSpec { kind: Some(EncryptionType::Ipsec) });
    assert_eq!(err_field(&s), "spec.cilium.encryption.type");
}

#[test]
fn envoy_is_off_by_default_and_versioned_independently_of_cilium() {
    let cfg = resolve(&spec(Mode::Overlay)).unwrap();
    assert!(!cfg.envoy);

    let mut s = spec(Mode::Overlay);
    s.cilium.as_mut().unwrap().envoy = Some(EnvoySpec {
        enabled: Some(true),
        image: None,
    });
    let cfg = resolve(&s).unwrap();
    assert!(cfg.envoy);
    // The envoy tag is its own thing — deriving it from spec.cilium.version
    // would produce a tag that does not exist.
    assert_eq!(
        cfg.envoy_image,
        format!("{DEFAULT_REGISTRY}/cilium-envoy:{DEFAULT_ENVOY_TAG}")
    );
    assert!(!cfg.envoy_image.contains(&cfg.version));

    // A mirrored registry carries the envoy image too.
    let mut s2 = s.clone();
    s2.cilium.as_mut().unwrap().registry = Some("mirror.local/cilium".into());
    assert!(resolve(&s2).unwrap().envoy_image.starts_with("mirror.local/cilium/cilium-envoy:"));

    // ...and a full override wins outright.
    s.cilium.as_mut().unwrap().envoy = Some(EnvoySpec {
        enabled: Some(true),
        image: Some("registry.internal/envoy:pinned".into()),
    });
    assert_eq!(resolve(&s).unwrap().envoy_image, "registry.internal/envoy:pinned");
}

#[test]
fn cluster_identity_defaults_and_is_bounded() {
    let cfg = resolve(&spec(Mode::Overlay)).unwrap();
    assert_eq!(cfg.cluster_name, "default");
    assert_eq!(cfg.cluster_id, 0);

    let mut s = spec(Mode::Overlay);
    s.cilium.as_mut().unwrap().cluster_name = Some("g8".into());
    s.cilium.as_mut().unwrap().cluster_id = Some(7);
    let cfg = resolve(&s).unwrap();
    assert_eq!(cfg.cluster_name, "g8");
    assert_eq!(cfg.cluster_id, 7);

    // ClusterMesh caps the id at 255.
    let mut s = spec(Mode::Overlay);
    s.cilium.as_mut().unwrap().cluster_id = Some(256);
    assert_eq!(err_field(&s), "spec.cilium.clusterID");

    let mut s = spec(Mode::Overlay);
    s.cilium.as_mut().unwrap().cluster_name = Some("  ".into());
    assert_eq!(err_field(&s), "spec.cilium.clusterName");
}

fn message(s: &NetworkSpec) -> String {
    resolve(s).unwrap_err().describe()
}

#[test]
fn unreadable_networks_are_quoted_in_the_message() {
    let mut s = spec(Mode::Overlay);
    s.cluster_network = vec!["10.244.0.0/16".into(), "not-a-cidr".into()];
    assert_eq!(
        message(&s),
        "spec.clusterNetwork: \"not-a-cidr\" is not a valid CIDR: invalid IP address syntax"
    );

    let mut s = spec(Mode::Overlay);
    s.service_network = vec!["10.96.0.0/64".into()];
    assert_eq!(
        message(&s),
        "spec.serviceNetwork: \"10.96.0.0/64\" is not a valid CIDR: invalid IP address syntax"
    );
}

#[test]
fn the_node_mask_message_names_both_prefixes() {
    let mut s = spec(Mode::Overlay);
    s.cilium.as_mut().unwrap().ipam =
        Some(IpamSpec { mode: None, cluster_pool_ipv4_mask_size: Some(16) });
    assert_eq!(
        resolve(&s).unwrap_err().message,
        "must be longer than the clusterNetwork prefix /16 to carve per-node blocks (got /16)"
    );

    for mask in [0, 33] {
        s.cilium.as_mut().unwrap().ipam =
            Some(IpamSpec { mode: None, cluster_pool_ipv4_mask_size: Some(mask) });
        assert_eq!(resolve(&s).unwrap_err().message, "must be between 1 and 32");
    }

    // The mask means nothing where the addresses come from the nodes.
    s.cilium.as_mut().unwrap().ipam =
        Some(IpamSpec { mode: Some(IpamMode::Kubernetes), cluster_pool_ipv4_mask_size: Some(0) });
    assert!(resolve(&s).is_ok());
}

#[test]
fn the_shortest_prefix_that_fits_is_accepted() {
    let mut s = spec(Mode::Overlay);
    s.cilium.as_mut().unwrap().ipam =
        Some(IpamSpec { mode: None, cluster_pool_ipv4_mask_size: Some(17) });
    assert_eq!(resolve(&s).unwrap().cluster_pool_ipv4_mask_size, 17);
}

#[test]
fn rejects_port_version_and_mtu_out_of_range() {
    let mut s = spec(Mode::Overlay);
    s.cilium.as_mut().unwrap().k8s_service_port = Some(0);
    assert_eq!(message(&s), "spec.cilium.k8sServicePort: must be non-zero");

    let mut s = spec(Mode::Overlay);
    s.cilium.as_mut().unwrap().version = Some(" \t\u{3000}".into());
    assert_eq!(message(&s), "spec.cilium.version: must not be empty");

    for mtu in [-1, 1, 575, 9217] {
        let mut s = spec(Mode::Overlay);
        s.cilium.as_mut().unwrap().mtu = Some(mtu);
        assert_eq!(
            message(&s),
            "spec.cilium.mtu: must be 0 (auto) or between 576 and 9216",
            "mtu {mtu}"
        );
    }
    for mtu in [0, 576, 9216] {
        let mut s = spec(Mode::Overlay);
        s.cilium.as_mut().unwrap().mtu = Some(mtu);
        assert_eq!(resolve(&s).unwrap().mtu, mtu);
    }
}

fn bgp_with(address: &str, asn: i64, local_asn: i64) -> NetworkSpec {
    let mut s = spec(Mode::Bgp);
    s.cilium.as_mut().unwrap().load_balancer = Some(LoadBalancerSpec {
        pools: Some(vec!["192.168.8.240/28".into()]),
        bgp: Some(BgpSpec {
            local_asn: Some(local_asn),
            peers: vec![BgpPeer { address: address.into(), asn }],
        }),
        ..Default::default()
    });
    s
}

#[test]
fn peers_are_checked_for_address_and_asn() {
    assert!(resolve(&bgp_with("192.168.8.1", 4_294_967_295, 1)).is_ok());
    assert!(resolve(&bgp_with("fd00::1", 64512, 64512)).is_ok());
    assert_eq!(
        message(&bgp_with("router.local", 64512, 64512)),
        "spec.cilium.loadBalancer.bgp.peers: peer address \"router.local\" is not an IP address"
    );
    assert_eq!(
        message(&bgp_with("192.168.8.1", -7, 64512)),
        "spec.cilium.loadBalancer.bgp.peers: peer 192.168.8.1 has an invalid ASN -7"
    );
    assert_eq!(
        message(&bgp_with("192.168.8.1", 4_294_967_296, 64512)),
        "spec.cilium.loadBalancer.bgp.peers: peer 192.168.8.1 has an invalid ASN 4294967296"
    );
    assert_eq!(
        message(&bgp_with("192.168.8.1", 64512, 0)),
        "spec.cilium.loadBalancer.bgp.localASN: must be a valid ASN (1-4294967295)"
    );
}

#[test]
fn unreadable_pools_are_rejected_only_with_lb_ipam() {
    let mut s = spec(Mode::Overlay);
    s.cilium.as_mut().unwrap().load_balancer =
        Some(LoadBalancerSpec { pools: Some(vec!["nope".into()]), ..Default::default() });
    assert!(resolve(&s).is_ok());
    s.cilium.as_mut().unwrap().load_balancer.as_mut().unwrap().ipam = Some(true);
    assert_eq!(
        message(&s),
        "spec.cilium.loadBalancer.pools: \"nope\" is not a valid CIDR: invalid IP address syntax"
    );
}

#[test]
fn the_first_broken_rule_is_the_one_reported() {
    let mut s = bgp_with("router.local", 0, 0);
    s.cilium.as_mut().unwrap().k8s_service_host = None;
    s.cilium.as_mut().unwrap().cluster_id = Some(256);
    assert_eq!(err_field(&s), "spec.cilium.k8sServiceHost");
    s.cilium.as_mut().unwrap().k8s_service_host = Some("192.168.8.98".into());
    assert_eq!(err_field(&s), "spec.cilium.loadBalancer.bgp.localASN");
    s.service_network.clear();
    assert_eq!(err_field(&s), "spec.serviceNetwork");
}

#[test]
fn a_spec_without_overrides_gets_every_default() {
    let s = NetworkSpec {
        cluster_network: vec!["10.244.0.0/16".into()],
        service_network: vec!["10.96.0.0/12".into()],
        ..Default::default()
    };
    assert_eq!(err_field(&s), "spec.cilium.k8sServiceHost");

    let cfg = fill(&s);
    assert_eq!(cfg.network_name, "cluster");
    assert_eq!(cfg.network_uid, None);
    assert_eq!(cfg.mode, Mode::Overlay);
    assert_eq!(cfg.registry, "quay.io/cilium");
    assert_eq!(cfg.cluster_pool_ipv4_mask_size, 24);
    assert_eq!(cfg.mtu, 0);
    assert_eq!(cfg.k8s_service_host, "");
    assert_eq!(cfg.k8s_service_port, 6443);
    assert_eq!(cfg.bgp_local_asn, 0);
    assert!(cfg.bgp_peers.is_empty());
    assert!(cfg.lb_pools.is_empty());
    assert_eq!(cfg.clone(), cfg);
}

#[test]
fn the_rules_go_by_the_readings_they_are_given() {
    let cfg = resolve(&spec(Mode::Overlay)).unwrap();
    let mut readings = read(&cfg);
    assert_eq!(readings.cluster_network, vec![CidrReading::Network { prefix_len: 16 }]);
    assert!(validate_with(&cfg, &readings).is_ok());
    readings.cluster_network = vec![CidrReading::Network { prefix_len: 24 }];
    assert_eq!(
        validate_with(&cfg, &readings).unwrap_err().field,
        "spec.cilium.ipam.clusterPoolIPv4MaskSize"
    );
    readings.cluster_network =
        vec![CidrReading::Unreadable { quoted: "\"x\"".into(), error: "why".into() }];
    assert_eq!(
        validate_with(&cfg, &readings).unwrap_err().describe(),
        "spec.clusterNetwork: \"x\" is not a valid CIDR: why"
    );
}

#[test]
fn the_mode_names_and_families_are_those_of_the_manifest() {
    let names: Vec<&str> =
        [Mode::Overlay, Mode::Native, Mode::Bgp, Mode::Encrypted, Mode::BareMetal]
            .iter()
            .map(|m| m.as_str())
            .collect();
    assert_eq!(names, ["overlay", "native", "bgp", "encrypted", "bare-metal"]);
    assert_eq!(Mode::Encrypted.datapath().as_str(), "tunnel");
    assert_eq!(Mode::Bgp.datapath().as_str(), "native");
    assert_eq!(EncryptionType::Off.as_str(), "none");
    assert_eq!(IpamMode::Kubernetes.as_str(), "kubernetes");
}
