//! Load balancing and its Cilium CRs.

use network_operator::crd::{BgpPeer, BgpSpec, CiliumSpec, LoadBalancerSpec, Mode, NetworkSpec};
use network_operator::modes::{resolve, EffectiveConfig};
use network_operator::render::lb::{all_variants, api_version, render, ADVERTISE_LABEL_KEY};
use network_operator::render::object::Body;
use network_operator::render::value::Value;
use network_operator::render::version::minor;
use network_operator::render::Rendered;

/// The example clusters, as a spec.
fn spec_for(mode: Mode) -> NetworkSpec {
    let load_balancer = match mode {
        Mode::Bgp => Some(LoadBalancerSpec {
            pools: Some(vec!["192.168.8.240/28".into()]),
            bgp: Some(BgpSpec {
                local_asn: Some(64512),
                peers: vec![BgpPeer { address: "192.168.8.1".into(), asn: 64512 }],
            }),
            ..Default::default()
        }),
        Mode::BareMetal => Some(LoadBalancerSpec {
            pools: Some(vec!["192.168.8.240/28".into()]),
            ..Default::default()
        }),
        _ => None,
    };

    NetworkSpec {
        mode,
        cluster_network: vec!["10.244.0.0/16".into()],
        service_network: vec!["10.96.0.0/12".into()],
        cilium: Some(CiliumSpec {
            k8s_service_host: Some("192.168.8.98".into()),
            k8s_service_port: Some(6443),
            load_balancer,
            ..Default::default()
        }),
        ..Default::default()
    }
}

fn cfg_for(mode: Mode) -> EffectiveConfig {
    resolve(&spec_for(mode)).expect("test fixtures must be valid")
}

fn spec_of(r: &Rendered) -> Value {
    match &r.obj.body {
        Body::Custom { spec } => spec.clone(),
        other => panic!("not a CR: {other:?}"),
    }
}

/// A member of an object.
fn at(v: &Value, key: &str) -> Value {
    match v {
        Value::Object(members) => {
            let found = members.iter().find(|(k, _)| k == key);
            found.unwrap_or_else(|| panic!("no {key} in {v:?}")).1.clone()
        }
        other => panic!("not an object: {other:?}"),
    }
}

/// The items of a list.
fn items(v: &Value) -> Vec<Value> {
    match v {
        Value::List(items) => items.clone(),
        other => panic!("not a list: {other:?}"),
    }
}

fn text(s: &str) -> Value {
    Value::Text(s.to_string())
}

#[test]
fn nothing_is_rendered_without_lb_ipam() {
    assert!(render(&cfg_for(Mode::Overlay)).is_empty());
    assert!(render(&cfg_for(Mode::Native)).is_empty());
    assert!(render(&cfg_for(Mode::Encrypted)).is_empty());
}

#[test]
fn pool_blocks_come_from_the_configured_cidrs() {
    let mut cfg = cfg_for(Mode::BareMetal);
    cfg.lb_pools = vec!["192.168.8.240/28".into(), "10.0.0.0/24".into()];
    let objs = render(&cfg);
    let pool = &objs[0];
    assert_eq!(pool.api.kind, "CiliumLoadBalancerIPPool");
    assert_eq!(
        at(&spec_of(pool), "blocks"),
        Value::List(vec![
            Value::Object(vec![("cidr".to_string(), text("192.168.8.240/28"))]),
            Value::Object(vec![("cidr".to_string(), text("10.0.0.0/24"))]),
        ])
    );
}

#[test]
fn bgp_renders_a_peer_per_configured_neighbour() {
    let mut cfg = cfg_for(Mode::Bgp);
    cfg.bgp_peers = vec![("192.168.8.1".into(), 64512), ("192.168.8.2".into(), 64513)];
    let objs = render(&cfg);
    let cluster = objs.iter().find(|r| r.api.kind == "CiliumBGPClusterConfig").unwrap();
    let instances = items(&at(&spec_of(cluster), "bgpInstances"));
    assert_eq!(at(&instances[0], "localASN"), Value::Int(64512));

    let peers = items(&at(&instances[0], "peers"));
    assert_eq!(peers.len(), 2);
    assert_eq!(at(&peers[0], "peerAddress"), text("192.168.8.1"));
    assert_eq!(at(&peers[0], "peerASN"), Value::Int(64512));
    // Names must be DNS-safe, so dots cannot survive into the peer name.
    assert_eq!(at(&peers[0], "name"), text("peer-192-168-8-1"));
    assert_eq!(at(&peers[1], "peerASN"), Value::Int(64513));
}

#[test]
fn peer_config_and_advertisement_are_linked_by_label() {
    let objs = render(&cfg_for(Mode::Bgp));
    let peer_cfg = objs.iter().find(|r| r.api.kind == "CiliumBGPPeerConfig").unwrap();
    let families = items(&at(&spec_of(peer_cfg), "families"));
    let selector = at(&at(&families[0], "advertisements"), "matchLabels");

    let adv = objs.iter().find(|r| r.api.kind == "CiliumBGPAdvertisement").unwrap();
    let labels = adv.obj.metadata.labels.as_ref().unwrap();
    assert_eq!(
        at(&selector, ADVERTISE_LABEL_KEY),
        text(labels.get(ADVERTISE_LABEL_KEY).unwrap())
    );

    // Every peer points at the peer config we actually rendered.
    let cluster = objs.iter().find(|r| r.api.kind == "CiliumBGPClusterConfig").unwrap();
    let instances = items(&at(&spec_of(cluster), "bgpInstances"));
    let peers = items(&at(&instances[0], "peers"));
    assert_eq!(at(&at(&peers[0], "peerConfigRef"), "name"), text(peer_cfg.name()));
}

#[test]
fn bgp_advertises_both_pod_cidrs_and_lb_vips() {
    let objs = render(&cfg_for(Mode::Bgp));
    let adv = objs.iter().find(|r| r.api.kind == "CiliumBGPAdvertisement").unwrap();
    let kinds: Vec<_> = items(&at(&spec_of(adv), "advertisements"))
        .iter()
        .map(|a| at(a, "advertisementType"))
        .collect();
    assert_eq!(kinds, vec![text("PodCIDR"), text("Service")]);
}

#[test]
fn group_version_tracks_the_cilium_release() {
    let mut cfg = cfg_for(Mode::Bgp);
    assert_eq!(api_version(&cfg), "v2");

    cfg.version = "1.16.5".into();
    assert_eq!(api_version(&cfg), "v2alpha1");
    assert!(render(&cfg).iter().all(|r| r.api.version == "v2alpha1"));

    cfg.version = "v1.17.0".into();
    assert_eq!(api_version(&cfg), "v2");
}

#[test]
fn l2_policy_stays_on_the_alpha_group_even_on_new_cilium() {
    let cfg = cfg_for(Mode::BareMetal);
    assert_eq!(api_version(&cfg), "v2");
    let policy = render(&cfg)
        .into_iter()
        .find(|r| r.api.kind == "CiliumL2AnnouncementPolicy")
        .unwrap();
    assert_eq!(policy.api.version, "v2alpha1");
}

#[test]
fn minor_versions_are_read_as_numbers() {
    assert_eq!(minor("1.19.6"), Some(19));
    assert_eq!(minor("v1.19.6"), Some(19));
    assert_eq!(minor("vv1.7"), Some(7));
    assert_eq!(minor("1.+16"), Some(16));
    assert_eq!(minor("1.0016.2"), Some(16));
    assert_eq!(minor("1.4294967295"), Some(4294967295));
    for unreadable in ["", "v", "1", "1.", "1..2", "1.x", "1.-1", "1.+", "1.4294967296", "latest"] {
        assert_eq!(minor(unreadable), None, "{unreadable:?}");
    }
}

#[test]
fn an_unreadable_version_resolves_to_the_modern_group_version() {
    let mut cfg = cfg_for(Mode::Bgp);
    cfg.version = "latest".into();
    assert_eq!(api_version(&cfg), "v2");
}

#[test]
fn every_variant_is_listed_once_in_the_order_of_ids() {
    let expected = vec![
        "CiliumBGPAdvertisement/storm-advertisements",
        "CiliumBGPClusterConfig/storm",
        "CiliumBGPPeerConfig/storm-peers",
        "CiliumL2AnnouncementPolicy/storm-default",
        "CiliumLoadBalancerIPPool/storm-default",
    ];
    for mode in [Mode::Overlay, Mode::Bgp, Mode::BareMetal] {
        let ids: Vec<String> = all_variants(&cfg_for(mode)).iter().map(|r| r.id()).collect();
        assert_eq!(ids, expected);
        let mut sorted = ids.clone();
        sorted.sort();
        assert_eq!(ids, sorted);
    }
}

#[test]
fn peer_names_are_safe_in_dns_for_both_families() {
    let mut cfg = cfg_for(Mode::Bgp);
    cfg.bgp_peers = vec![("fd00::1".into(), 1)];
    let objs = render(&cfg);
    let instances = items(&at(&spec_of(&objs[1]), "bgpInstances"));
    assert_eq!(at(&instances[0], "name"), text("asn64512"));
    let peers = items(&at(&instances[0], "peers"));
    assert_eq!(at(&peers[0], "name"), text("peer-fd00--1"));
}
