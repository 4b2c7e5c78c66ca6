//! The full manifest set of each mode.

use network_operator::crd::{
    BgpPeer, BgpSpec, CiliumSpec, EnvoySpec, LoadBalancerSpec, Mode, Network, NetworkSpec,
};
use network_operator::k8s::meta::ObjectMeta;
use network_operator::modes::{resolve, resolve_network};
use network_operator::render;

const MODES: [(&str, Mode); 5] = [
    ("overlay", Mode::Overlay),
    ("native", Mode::Native),
    ("bgp", Mode::Bgp),
    ("encrypted", Mode::Encrypted),
    ("bare-metal", Mode::BareMetal),
];

/// A `Network` covering every knob a mode might set.
fn manifest(mode: Mode) -> Network {
    let pools = Some(vec!["192.168.8.240/28".to_string()]);
    let load_balancer = match mode {
        Mode::Bgp => Some(LoadBalancerSpec {
            pools,
            bgp: Some(BgpSpec {
                local_asn: Some(64512),
                peers: vec![
                    BgpPeer { address: "192.168.8.1".into(), asn: 64512 },
                    BgpPeer { address: "192.168.8.2".into(), asn: 64512 },
                ],
            }),
            ..Default::default()
        }),
        Mode::BareMetal => Some(LoadBalancerSpec { pools, ..Default::default() }),
        _ => None,
    };
    Network {
        metadata: ObjectMeta { name: Some("cluster".into()), ..Default::default() },
        spec: NetworkSpec {
            mode,
            cluster_network: vec!["10.244.0.0/16".into()],
            service_network: vec!["10.96.0.0/12".into()],
            cilium: Some(CiliumSpec {
                version: Some("1.19.6".into()),
                kube_proxy_replacement: Some(true),
                k8s_service_host: Some("192.168.8.98".into()),
                k8s_service_port: Some(6443),
                load_balancer,
                ..Default::default()
            }),
            ..Default::default()
        },
        status: None,
    }
}

fn render_to_text(net: &Network) -> String {
    let cfg = resolve_network(net).expect("fixture must resolve");
    let mut out = String::new();
    for object in render::render(&cfg) {
        out.push_str("---\n");
        out.push_str(&format!("{:#?}", object.obj));
    }
    out
}

fn ids(net: &Network) -> Vec<String> {
    let cfg = resolve_network(net).unwrap();
    render::render(&cfg).iter().map(|r| r.id()).collect()
}

/// An upgrade must change image tags and nothing else — the property that makes
/// `spec.cilium.version` a safe knob to turn.
#[test]
fn a_version_bump_only_moves_image_tags() {
    let base = manifest(Mode::Overlay);
    let mut bumped = base.clone();
    bumped.spec.cilium.as_mut().unwrap().version = Some("1.20.0".into());

    let before = render_to_text(&base);
    let after = render_to_text(&bumped);
    assert_ne!(before, after);
    assert_eq!(before.replace("v1.19.6", "v1.20.0"), after);
}

/// Two clusters that differ only in a runtime-changeable field must not differ
/// in anything structural (selectors, names, kinds).
#[test]
fn runtime_changeable_fields_do_not_move_object_identities() {
    for (name, mode) in MODES {
        let net = manifest(mode);
        let cfg = resolve_network(&net).unwrap();
        let ids: Vec<String> = render::render(&cfg).iter().map(|r| r.id()).collect();

        let mut spec = net.spec.clone();
        spec.cilium.as_mut().unwrap().mtu = Some(9000);
        let mutated = resolve(&spec).unwrap();
        let mutated_ids: Vec<String> = render::render(&mutated).iter().map(|r| r.id()).collect();

        assert_eq!(ids, mutated_ids, "mode {name} ({mode:?}) changed object identities on an mtu change");
    }
}

const CORE: [&str; 11] = [
    "ServiceAccount/kube-system/cilium",
    "ServiceAccount/kube-system/cilium-operator",
    "ClusterRole/cilium",
    "ClusterRole/cilium-operator",
    "ClusterRoleBinding/cilium",
    "ClusterRoleBinding/cilium-operator",
    "Role/kube-system/cilium-config-agent",
    "RoleBinding/kube-system/cilium-config-agent",
    "ConfigMap/kube-system/cilium-config",
    "DaemonSet/kube-system/cilium",
    "Deployment/kube-system/cilium-operator",
];

#[test]
fn each_mode_renders_its_object_list_in_apply_order() {
    for mode in [Mode::Overlay, Mode::Native, Mode::Encrypted] {
        assert_eq!(ids(&manifest(mode)), CORE);
    }

    let mut bare_metal: Vec<&str> = CORE.to_vec();
    bare_metal.push("CiliumLoadBalancerIPPool/storm-default");
    bare_metal.push("CiliumL2AnnouncementPolicy/storm-default");
    assert_eq!(ids(&manifest(Mode::BareMetal)), bare_metal);

    let mut bgp: Vec<&str> = CORE.to_vec();
    bgp.push("CiliumLoadBalancerIPPool/storm-default");
    bgp.push("CiliumBGPClusterConfig/storm");
    bgp.push("CiliumBGPPeerConfig/storm-peers");
    bgp.push("CiliumBGPAdvertisement/storm-advertisements");
    assert_eq!(ids(&manifest(Mode::Bgp)), bgp);
}

#[test]
fn envoy_comes_after_the_workloads_and_before_the_crs() {
    let mut net = manifest(Mode::BareMetal);
    net.spec.cilium.as_mut().unwrap().envoy =
        Some(EnvoySpec { enabled: Some(true), image: None });
    let mut expected: Vec<&str> = CORE.to_vec();
    expected.push("ServiceAccount/kube-system/cilium-envoy");
    expected.push("ConfigMap/kube-system/cilium-envoy-config");
    expected.push("DaemonSet/kube-system/cilium-envoy");
    expected.push("Service/kube-system/cilium-envoy");
    expected.push("CiliumLoadBalancerIPPool/storm-default");
    expected.push("CiliumL2AnnouncementPolicy/storm-default");
    assert_eq!(ids(&net), expected);
}

#[test]
fn every_object_is_sent_under_the_type_it_is_served_at() {
    let mut net = manifest(Mode::Bgp);
    net.spec.cilium.as_mut().unwrap().envoy =
        Some(EnvoySpec { enabled: Some(true), image: None });
    let cfg = resolve_network(&net).unwrap();
    let served: Vec<(String, String, String, String)> = render::render(&cfg)
        .into_iter()
        .map(|r| {
            let types = r.obj.types.unwrap();
            assert_eq!(types.kind, r.api.kind);
            assert_eq!(types.api_version, r.api.api_version);
            (types.api_version, types.kind, r.api.group, r.api.plural)
        })
        .collect();
    let rbac = "rbac.authorization.k8s.io";
    for (api_version, kind, group, plural) in [
        ("v1", "ServiceAccount", "", "serviceaccounts"),
        ("rbac.authorization.k8s.io/v1", "ClusterRole", rbac, "clusterroles"),
        ("rbac.authorization.k8s.io/v1", "ClusterRoleBinding", rbac, "clusterrolebindings"),
        ("rbac.authorization.k8s.io/v1", "Role", rbac, "roles"),
        ("rbac.authorization.k8s.io/v1", "RoleBinding", rbac, "rolebindings"),
        ("v1", "ConfigMap", "", "configmaps"),
        ("apps/v1", "DaemonSet", "apps", "daemonsets"),
        ("apps/v1", "Deployment", "apps", "deployments"),
        ("v1", "Service", "", "services"),
        ("cilium.io/v2", "CiliumBGPPeerConfig", "cilium.io", "ciliumbgppeerconfigs"),
    ] {
        let wanted =
            (api_version.to_string(), kind.to_string(), group.to_string(), plural.to_string());
        assert!(served.contains(&wanted), "{kind} is not served at {wanted:?}");
    }
}

#[test]
fn the_network_name_and_uid_reach_every_object() {
    let mut net = manifest(Mode::Overlay);
    net.metadata.name = Some("edge".into());
    net.metadata.uid = Some("u-1".into());
    let cfg = resolve_network(&net).unwrap();
    for r in render::render(&cfg) {
        let labels = r.obj.metadata.labels.unwrap();
        assert_eq!(labels.get("network.storm.io/owner").unwrap(), "edge");
        assert_eq!(labels.get("app.kubernetes.io/part-of").unwrap(), "cilium");
        let owners = r.obj.metadata.owner_references.unwrap();
        assert_eq!(owners.len(), 1);
        assert_eq!(owners[0].name, "edge");
        assert_eq!(owners[0].uid, "u-1");
        assert_eq!(owners[0].controller, Some(true));
    }

    // A bare spec goes by the conventional name.
    net.metadata.name = None;
    assert_eq!(resolve_network(&net).unwrap().network_name, "cluster");
}

#[test]
fn no_two_objects_share_an_id() {
    for (name, mode) in MODES {
        let mut net = manifest(mode);
        net.spec.cilium.as_mut().unwrap().envoy =
            Some(EnvoySpec { enabled: Some(true), image: None });
        let mut unique = ids(&net);
        let rendered = unique.len();
        unique.sort();
        unique.dedup();
        assert_eq!(unique.len(), rendered, "mode {name} renders an id twice");
    }
}

#[test]
fn a_version_bump_touches_the_agent_and_the_operator_only() {
    for (_, mode) in MODES {
        let base = manifest(mode);
        let mut bumped = base.clone();
        bumped.spec.cilium.as_mut().unwrap().version = Some("1.20.0".into());
        let before = render::render(&resolve_network(&base).unwrap());
        let after = render::render(&resolve_network(&bumped).unwrap());
        assert_eq!(before.len(), after.len());
        let moved: Vec<String> = before
            .iter()
            .zip(after.iter())
            .filter(|(b, a)| b != a)
            .map(|(b, _)| b.id())
            .collect();
        assert_eq!(
            moved,
            ["DaemonSet/kube-system/cilium", "Deployment/kube-system/cilium-operator"]
        );
        for i in [9, 10] {
            assert_eq!(before[i].api, after[i].api);
            assert_eq!(before[i].obj.metadata, after[i].obj.metadata);
            let text = format!("{:?}", before[i]).replace("v1.19.6", "v1.20.0");
            assert_eq!(text, format!("{:?}", after[i]));
        }
    }
}
