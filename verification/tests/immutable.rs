//! Changes that are refused under a live dataplane.

use network_operator::crd::{BgpPeer, BgpSpec, CiliumSpec, IpamMode, LoadBalancerSpec, Mode, NetworkSpec, NetworkStatus, RoutingMode};
use network_operator::immutable::{applied_from, check};
use network_operator::modes::{resolve, EffectiveConfig};

/// The example clusters, as a spec.
fn spec_for(mode: Mode) -> NetworkSpec {
    let load_balancer = match mode {
        Mode::Bgp => Some(LoadBalancerSpec {
            pools: Some(vec!["192.168.8.240/28".into()]),
            bgp: Some(BgpSpec {
                local_asn: Some(64512),
                peers: vec![BgpPeer { address: "192.168.8.1".into(), asn: 64512 }],
            }),
            ..Default::default()
        }),
        Mode::BareMetal => Some(LoadBalancerSpec {
            pools: Some(vec!["192.168.8.240/28".into()]),
            ..Default::default()
        }),
        _ => None,
    };

    NetworkSpec {
        mode,
        cluster_network: vec!["10.244.0.0/16".into()],
        service_network: vec!["10.96.0.0/12".into()],
        cilium: Some(CiliumSpec {
            k8s_service_host: Some("192.168.8.98".into()),
            k8s_service_port: Some(6443),
            load_balancer,
            ..Default::default()
        }),
        ..Default::default()
    }
}

fn cfg_for(mode: Mode) -> EffectiveConfig {
    resolve(&spec_for(mode)).expect("test fixtures must be valid")
}

fn installed(mode: Mode) -> NetworkStatus {
    let mut s = NetworkStatus::default();
    applied_from(&cfg_for(mode), &mut s);
    s
}

#[test]
fn a_fresh_install_has_no_baseline_to_violate() {
    assert!(check(&cfg_for(Mode::Overlay), None).is_empty());
    assert!(check(&cfg_for(Mode::Bgp), Some(&NetworkStatus::default())).is_empty());
}

#[test]
fn re_applying_the_same_config_is_clean() {
    let status = installed(Mode::Overlay);
    assert!(check(&cfg_for(Mode::Overlay), Some(&status)).is_empty());
}

#[test]
fn crossing_the_datapath_family_is_rejected() {
    let status = installed(Mode::Overlay);
    let v = check(&cfg_for(Mode::Native), Some(&status));
    assert_eq!(v.len(), 1);
    assert_eq!(v[0].field, "spec.mode (datapath family)");
    assert_eq!(v[0].applied, "tunnel");
    assert_eq!(v[0].requested, "native");
}

#[test]
fn runtime_changeable_fields_pass_even_across_modes() {
    // overlay -> encrypted: same tunnel datapath, only encryption differs.
    let status = installed(Mode::Overlay);
    assert!(check(&cfg_for(Mode::Encrypted), Some(&status)).is_empty());

    // native -> bgp: same native datapath, LB/BGP is runtime-changeable.
    let status = installed(Mode::Native);
    assert!(check(&cfg_for(Mode::Bgp), Some(&status)).is_empty());

    // a version bump is an upgrade, not a violation
    let status = installed(Mode::Overlay);
    let mut cfg = cfg_for(Mode::Overlay);
    cfg.version = "1.20.0".into();
    assert!(check(&cfg, Some(&status)).is_empty());
}

#[test]
fn changing_the_pod_or_service_cidr_is_rejected() {
    let status = installed(Mode::Overlay);

    let mut cfg = cfg_for(Mode::Overlay);
    cfg.cluster_network = vec!["10.245.0.0/16".into()];
    let v = check(&cfg, Some(&status));
    assert_eq!(v[0].field, "spec.clusterNetwork");

    let mut cfg = cfg_for(Mode::Overlay);
    cfg.service_network = vec!["172.30.0.0/16".into()];
    let v = check(&cfg, Some(&status));
    assert_eq!(v[0].field, "spec.serviceNetwork");
}

#[test]
fn changing_ipam_mode_is_rejected() {
    let status = installed(Mode::Overlay);
    let mut cfg = cfg_for(Mode::Overlay);
    cfg.ipam = IpamMode::Kubernetes;
    let v = check(&cfg, Some(&status));
    assert_eq!(v[0].field, "spec.cilium.ipam.mode");
}

#[test]
fn several_violations_are_all_reported_not_just_the_first() {
    let status = installed(Mode::Overlay);
    let mut cfg = cfg_for(Mode::Overlay);
    cfg.routing = RoutingMode::Native;
    cfg.ipam = IpamMode::Kubernetes;
    cfg.cluster_network = vec!["10.245.0.0/16".into()];
    assert_eq!(check(&cfg, Some(&status)).len(), 3);
}

#[test]
fn a_violation_names_what_was_applied_and_what_was_asked_for() {
    let status = installed(Mode::Overlay);
    let mut cfg = cfg_for(Mode::Overlay);
    cfg.cluster_network = vec!["10.245.0.0/16".into(), "10.246.0.0/16".into()];
    assert_eq!(
        check(&cfg, Some(&status))[0].describe(),
        "spec.clusterNetwork is immutable after install (applied 10.244.0.0/16, requested \
         10.245.0.0/16,10.246.0.0/16)"
    );
}

#[test]
fn the_baseline_records_what_is_installed_and_keeps_the_rest() {
    let mut status = NetworkStatus { observed_generation: Some(4), ..Default::default() };
    applied_from(&cfg_for(Mode::Bgp), &mut status);
    assert_eq!(status.applied_mode.as_deref(), Some("bgp"));
    assert_eq!(status.applied_version.as_deref(), Some("1.19.6"));
    assert_eq!(status.applied_datapath.as_deref(), Some("native"));
    assert_eq!(status.applied_ipam.as_deref(), Some("cluster-pool"));
    assert_eq!(status.applied_cluster_network, ["10.244.0.0/16"]);
    assert_eq!(status.applied_service_network, ["10.96.0.0/12"]);
    assert_eq!(status.observed_generation, Some(4));
}
