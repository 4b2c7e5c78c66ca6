//! The rendered object set as a whole.

use network_operator::crd::{Announce, BgpPeer, BgpSpec, CiliumSpec, LoadBalancerSpec, Mode, NetworkSpec};
use network_operator::modes::{resolve, EffectiveConfig};
use network_operator::render::{is_cilium_cr, render, FIELD_MANAGER};

/// The example clusters, as a spec.
fn spec_for(mode: Mode) -> NetworkSpec {
    let load_balancer = match mode {
        Mode::Bgp => Some(LoadBalancerSpec {
            pools: Some(vec!["192.168.8.240/28".into()]),
            bgp: Some(BgpSpec {
                local_asn: Some(64512),
                peers: vec![BgpPeer { address: "192.168.8.1".into(), asn: 64512 }],
            }),
            ..Default::default()
        }),
        Mode::BareMetal => Some(LoadBalancerSpec {
            pools: Some(vec!["192.168.8.240/28".into()]),
            ..Default::default()
        }),
        _ => None,
    };

    NetworkSpec {
        mode,
        cluster_network: vec!["10.244.0.0/16".into()],
        service_network: vec!["10.96.0.0/12".into()],
        cilium: Some(CiliumSpec {
            k8s_service_host: Some("192.168.8.98".into()),
            k8s_service_port: Some(6443),
            load_balancer,
            ..Default::default()
        }),
        ..Default::default()
    }
}

fn cfg_for(mode: Mode) -> EffectiveConfig {
    resolve(&spec_for(mode)).expect("test fixtures must be valid")
}

#[test]
fn render_is_deterministic() {
    let cfg = cfg_for(Mode::Overlay);
    let a = render(&cfg);
    let b = render(&cfg);
    let ids: Vec<_> = a.iter().map(|r| r.id()).collect();
    assert_eq!(ids, b.iter().map(|r| r.id()).collect::<Vec<_>>());
    assert_eq!(
        format!("{:?}", a[0].obj),
        format!("{:?}", b[0].obj)
    );
}

#[test]
fn every_object_carries_the_managed_by_label() {
    for r in render(&cfg_for(Mode::Overlay)) {
        let labels = r.obj.metadata.labels.as_ref().unwrap();
        assert_eq!(
            labels.get("app.kubernetes.io/managed-by").map(String::as_str),
            Some(FIELD_MANAGER),
            "{} is missing the managed-by label",
            r.id()
        );
    }
}

#[test]
fn cilium_crs_sort_last_because_their_crds_arrive_late() {
    let objs = render(&cfg_for(Mode::Bgp));
    let first_cr = objs.iter().position(is_cilium_cr).unwrap();
    assert!(objs[first_cr..].iter().all(is_cilium_cr));
    assert!(objs[..first_cr].iter().all(|r| !is_cilium_cr(r)));
}

#[test]
fn overlay_renders_no_cilium_crs() {
    let objs = render(&cfg_for(Mode::Overlay));
    assert!(!objs.iter().any(is_cilium_cr));
}

#[test]
fn owner_reference_is_set_when_the_uid_is_known() {
    let mut cfg = cfg_for(Mode::Overlay);
    cfg.network_uid = Some("abc-123".into());
    for r in render(&cfg) {
        let owners = r.obj.metadata.owner_references.as_ref().unwrap();
        assert_eq!(owners[0].uid, "abc-123");
        assert_eq!(owners[0].kind, "Network");
    }

    // Off-cluster renders (golden tests, dry runs) have no uid to point at.
    let cfg = cfg_for(Mode::Overlay);
    assert!(render(&cfg)[0].obj.metadata.owner_references.is_none());
}

#[test]
fn bare_metal_renders_l2_not_bgp() {
    let cfg = cfg_for(Mode::BareMetal);
    assert_eq!(cfg.announce, Announce::L2);
    let kinds: Vec<_> = render(&cfg).iter().map(|r| r.api.kind.clone()).collect();
    assert!(kinds.contains(&"CiliumL2AnnouncementPolicy".to_string()));
    assert!(kinds.contains(&"CiliumLoadBalancerIPPool".to_string()));
    assert!(!kinds.iter().any(|k| k.starts_with("CiliumBGP")));
}
