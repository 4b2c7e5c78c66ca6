//! Identities, roles and bindings.

use network_operator::crd::{BgpPeer, BgpSpec, CiliumSpec, LoadBalancerSpec, Mode, NetworkSpec};
use network_operator::k8s::rbac::PolicyRule;
use network_operator::modes::{resolve, EffectiveConfig, NAMESPACE};
use network_operator::render::object::Body;
use network_operator::render::rbac::{
    agent_rules, binding, operator_rules, render, render_namespaced,
};
use network_operator::render::AGENT_SA;

/// The example clusters, as a spec.
fn spec_for(mode: Mode) -> NetworkSpec {
    let load_balancer = match mode {
        Mode::Bgp => Some(LoadBalancerSpec {
            pools: Some(vec!["192.168.8.240/28".into()]),
            bgp: Some(BgpSpec {
                local_asn: Some(64512),
                peers: vec![BgpPeer { address: "192.168.8.1".into(), asn: 64512 }],
            }),
            ..Default::default()
        }),
        Mode::BareMetal => Some(LoadBalancerSpec {
            pools: Some(vec!["192.168.8.240/28".into()]),
            ..Default::default()
        }),
        _ => None,
    };

    NetworkSpec {
        mode,
        cluster_network: vec!["10.244.0.0/16".into()],
        service_network: vec!["10.96.0.0/12".into()],
        cilium: Some(CiliumSpec {
            k8s_service_host: Some("192.168.8.98".into()),
            k8s_service_port: Some(6443),
            load_balancer,
            ..Default::default()
        }),
        ..Default::default()
    }
}

fn cfg_for(mode: Mode) -> EffectiveConfig {
    resolve(&spec_for(mode)).expect("test fixtures must be valid")
}

#[test]
fn renders_paired_sa_role_and_binding_for_both_identities() {
    let objs = render(&cfg_for(Mode::Overlay));
    let ids: Vec<_> = objs.iter().map(|r| r.id()).collect();
    assert_eq!(
        ids,
        vec![
            "ServiceAccount/kube-system/cilium",
            "ServiceAccount/kube-system/cilium-operator",
            "ClusterRole/cilium",
            "ClusterRole/cilium-operator",
            "ClusterRoleBinding/cilium",
            "ClusterRoleBinding/cilium-operator",
        ]
    );
}

#[test]
fn bindings_point_at_the_kube_system_service_accounts() {
    let b = binding(&cfg_for(Mode::Overlay), AGENT_SA);
    let subject = &b.subjects.unwrap()[0];
    assert_eq!(subject.kind, "ServiceAccount");
    assert_eq!(subject.name, AGENT_SA);
    assert_eq!(subject.namespace.as_deref(), Some(NAMESPACE));
    assert_eq!(b.role_ref.name, AGENT_SA);
}

#[test]
fn agent_can_write_the_bgp_and_lb_crs_it_is_handed() {
    let rules = agent_rules();
    let cilium = rules
        .iter()
        .find(|r| {
            r.api_groups.as_ref().unwrap() == &["cilium.io"]
                && r.verbs.contains(&"watch".to_string())
                && r.resources
                    .as_ref()
                    .unwrap()
                    .contains(&"ciliumbgpclusterconfigs".to_string())
        })
        .expect("agent needs the cilium.io rule");
    for want in ["ciliumloadbalancerippools", "ciliuml2announcementpolicies"] {
        assert!(cilium.resources.as_ref().unwrap().contains(&want.to_string()));
    }
}

#[test]
fn only_the_operator_may_create_crds() {
    let crd_verbs = |rules: &[PolicyRule]| -> Vec<String> {
        rules
            .iter()
            .filter(|r| {
                r.resources
                    .as_ref()
                    .is_some_and(|rs| rs.contains(&"customresourcedefinitions".to_string()))
            })
            .flat_map(|r| r.verbs.clone())
            .collect()
    };
    assert!(crd_verbs(&operator_rules()).contains(&"create".to_string()));
    assert!(!crd_verbs(&agent_rules()).contains(&"create".to_string()));
}

#[test]
fn the_agent_may_read_config_maps_in_its_own_namespace_only() {
    let objs = render_namespaced(&cfg_for(Mode::Overlay));
    let ids: Vec<_> = objs.iter().map(|r| r.id()).collect();
    assert_eq!(
        ids,
        vec![
            "Role/kube-system/cilium-config-agent",
            "RoleBinding/kube-system/cilium-config-agent",
        ]
    );
    match &objs[0].obj.body {
        Body::Role { rules } => {
            let rules = rules.as_ref().unwrap();
            assert_eq!(rules.len(), 1);
            assert_eq!(rules[0].api_groups.as_ref().unwrap(), &[""]);
            assert_eq!(rules[0].resources.as_ref().unwrap(), &["configmaps"]);
            assert_eq!(rules[0].verbs, ["get", "list", "watch"]);
        }
        other => panic!("not a Role: {other:?}"),
    }
    match &objs[1].obj.body {
        Body::RoleBinding { role_ref, subjects } => {
            assert_eq!(role_ref.kind, "Role");
            assert_eq!(role_ref.name, "cilium-config-agent");
            let subject = &subjects.as_ref().unwrap()[0];
            assert_eq!(subject.name, AGENT_SA);
            assert_eq!(subject.namespace.as_deref(), Some(NAMESPACE));
        }
        other => panic!("not a RoleBinding: {other:?}"),
    }
    let reads_config_maps = |r: &PolicyRule| {
        r.resources.as_ref().is_some_and(|rs| rs.contains(&"configmaps".to_string()))
    };
    assert!(!agent_rules().iter().any(reads_config_maps));
}
