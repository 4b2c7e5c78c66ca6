//! What holds of every render.

use vstd::prelude::*;

use crate::crd::Announce;
use crate::k8s::meta::{ApiResourceView, ObjectMetaView, TypeMetaView};
use crate::modes::{EffectiveConfigView, NAMESPACE};
use crate::render::names::{AGENT_DS, AGENT_SA, CONFIG_MAP, OPERATOR_DEPLOY, OPERATOR_SA};
use crate::render::object::{ObjectView, RenderedView};

pub mod balancing;
pub mod permissions;
pub mod pods;
pub mod reaping;
pub mod settings;
pub mod workloads;

verus! {

use crate::controller::has_id;
use crate::render::metadata::{cluster_meta_view, common_labels_view, meta_view, overlaid};
use crate::render::object::typed_view;
use crate::render::{agent, api, cilium_cr, config, envoy, lb, operator, rbac, render_view};
use crate::text::given;

// --- typed objects ---------------------------------------------------------

/// The metadata of an object.
pub open spec fn metadata_of(obj: ObjectView) -> ObjectMetaView {
    match obj {
        ObjectView::ServiceAccount(o) => o.metadata,
        ObjectView::ClusterRole(o) => o.metadata,
        ObjectView::ClusterRoleBinding(o) => o.metadata,
        ObjectView::Role(o) => o.metadata,
        ObjectView::RoleBinding(o) => o.metadata,
        ObjectView::ConfigMap(o) => o.metadata,
        ObjectView::DaemonSet(o) => o.metadata,
        ObjectView::Deployment(o) => o.metadata,
        ObjectView::Service(o) => o.metadata,
    }
}

/// Where an object is served.
pub open spec fn api_of(obj: ObjectView) -> ApiResourceView {
    match obj {
        ObjectView::ServiceAccount(_) => api::service_account_view(),
        ObjectView::ClusterRole(_) => api::cluster_role_view(),
        ObjectView::ClusterRoleBinding(_) => api::cluster_role_binding_view(),
        ObjectView::Role(_) => api::role_view(),
        ObjectView::RoleBinding(_) => api::role_binding_view(),
        ObjectView::ConfigMap(_) => api::config_map_view(),
        ObjectView::DaemonSet(_) => api::daemon_set_view(),
        ObjectView::Deployment(_) => api::deployment_view(),
        ObjectView::Service(_) => api::service_view(),
    }
}

/// What is sent of a typed object: its metadata, at where its kind is served.
pub open spec fn sent_as(r: RenderedView, obj: ObjectView) -> bool {
    &&& r == typed_view(obj)
    &&& r.api == api_of(obj)
    &&& r.namespace == metadata_of(obj).namespace
    &&& r.obj.metadata == metadata_of(obj)
    &&& r.obj.types == Some(
        (TypeMetaView { api_version: r.api.api_version, kind: r.api.kind }),
    )
    &&& !cilium_cr(r)
}

proof fn lemma_typed(obj: ObjectView)
    ensures
        sent_as(typed_view(obj), obj),
{
    reveal(typed_view);
    reveal_strlit("cilium.io");
    reveal_strlit("");
    reveal_strlit("apps");
    reveal_strlit("rbac.authorization.k8s.io");
    assert("cilium.io"@.len() == 9);
    assert(""@.len() == 0);
    assert("apps"@.len() == 4);
    assert("rbac.authorization.k8s.io"@.len() == 25);
}

/// The typed objects of a config, in order.
pub open spec fn objects(cfg: EffectiveConfigView) -> Seq<ObjectView> {
    seq![
        ObjectView::ServiceAccount(rbac::service_account_view(cfg, AGENT_SA@)),
        ObjectView::ServiceAccount(rbac::service_account_view(cfg, OPERATOR_SA@)),
        ObjectView::ClusterRole(rbac::cluster_role_view(cfg, AGENT_SA@, rbac::agent_rules_view())),
        ObjectView::ClusterRole(
            rbac::cluster_role_view(cfg, OPERATOR_SA@, rbac::operator_rules_view()),
        ),
        ObjectView::ClusterRoleBinding(rbac::binding_view(cfg, AGENT_SA@)),
        ObjectView::ClusterRoleBinding(rbac::binding_view(cfg, OPERATOR_SA@)),
        ObjectView::Role(rbac::config_reader_view(cfg)),
        ObjectView::RoleBinding(rbac::config_reader_binding_view(cfg)),
        ObjectView::ConfigMap(config::config_map_view(cfg)),
        ObjectView::DaemonSet(agent::daemon_set_view(cfg)),
        ObjectView::Deployment(operator::deployment_view(cfg)),
    ] + if cfg.envoy {
        seq![
            ObjectView::ServiceAccount(envoy::service_account_view(cfg)),
            ObjectView::ConfigMap(envoy::config_map_view(cfg)),
            ObjectView::DaemonSet(envoy::daemon_set_view(cfg)),
            ObjectView::Service(envoy::service_view(cfg)),
        ]
    } else {
        seq![]
    }
}

/// A render is the typed objects as they are sent, and behind them the CRs.
proof fn lemma_rendered(cfg: EffectiveConfigView)
    ensures
        render_view(cfg).len() == objects(cfg).len() + lb::render_view(cfg).len(),
        forall|i: int|
            0 <= i < objects(cfg).len() ==> sent_as(
                #[trigger] render_view(cfg)[i],
                objects(cfg)[i],
            ),
        forall|i: int|
            objects(cfg).len() <= i < render_view(cfg).len() ==> #[trigger] render_view(cfg)[i]
                == lb::render_view(cfg)[i - objects(cfg).len()],
{
    let sent = objects(cfg).map_values(|o: ObjectView| typed_view(o));
    assert(render_view(cfg) =~= sent + lb::render_view(cfg));
    assert forall|i: int| 0 <= i < objects(cfg).len() implies sent_as(
        #[trigger] render_view(cfg)[i],
        objects(cfg)[i],
    ) by {
        lemma_typed(objects(cfg)[i]);
        assert(sent[i] == typed_view(objects(cfg)[i]));
    }
}

// --- the object list -------------------------------------------------------

/// How an object is found in the cluster: its kind, namespace and name.
pub open spec fn key(r: RenderedView) -> (Seq<char>, Option<Seq<char>>, Seq<char>) {
    (r.api.kind, r.namespace, r.name())
}

/// An object of the namespace the install lands in.
pub open spec fn namespaced(
    kind: Seq<char>,
    name: Seq<char>,
) -> (Seq<char>, Option<Seq<char>>, Seq<char>) {
    (kind, Some(NAMESPACE@), name)
}

/// An object of the whole cluster.
pub open spec fn clusterwide(
    kind: Seq<char>,
    name: Seq<char>,
) -> (Seq<char>, Option<Seq<char>>, Seq<char>) {
    (kind, None, name)
}

/// What is always installed, in order.
pub open spec fn core_keys() -> Seq<(Seq<char>, Option<Seq<char>>, Seq<char>)> {
    seq![
        namespaced("ServiceAccount"@, AGENT_SA@),
        namespaced("ServiceAccount"@, OPERATOR_SA@),
        clusterwide("ClusterRole"@, AGENT_SA@),
        clusterwide("ClusterRole"@, OPERATOR_SA@),
        clusterwide("ClusterRoleBinding"@, AGENT_SA@),
        clusterwide("ClusterRoleBinding"@, OPERATOR_SA@),
        namespaced("Role"@, rbac::CONFIG_READER@),
        namespaced("RoleBinding"@, rbac::CONFIG_READER@),
        namespaced("ConfigMap"@, CONFIG_MAP@),
        namespaced("DaemonSet"@, AGENT_DS@),
        namespaced("Deployment"@, OPERATOR_DEPLOY@),
    ]
}

/// What a standalone Envoy adds, in order.
pub open spec fn envoy_keys(envoy: bool) -> Seq<(Seq<char>, Option<Seq<char>>, Seq<char>)> {
    if envoy {
        seq![
            namespaced("ServiceAccount"@, envoy::ENVOY_SA@),
            namespaced("ConfigMap"@, envoy::ENVOY_CONFIG_MAP@),
            namespaced("DaemonSet"@, envoy::ENVOY_DS@),
            namespaced("Service"@, envoy::ENVOY_DS@),
        ]
    } else {
        seq![]
    }
}

/// What load balancing adds, in order.
pub open spec fn lb_keys(
    lb_ipam: bool,
    announce: Announce,
) -> Seq<(Seq<char>, Option<Seq<char>>, Seq<char>)> {
    if !lb_ipam {
        seq![]
    } else {
        seq![clusterwide("CiliumLoadBalancerIPPool"@, lb::POOL_NAME@)] + match announce {
            Announce::Off => seq![],
            Announce::L2 => seq![clusterwide("CiliumL2AnnouncementPolicy"@, lb::POOL_NAME@)],
            Announce::Bgp => seq![
                clusterwide("CiliumBGPClusterConfig"@, lb::BGP_CLUSTER_CONFIG@),
                clusterwide("CiliumBGPPeerConfig"@, lb::BGP_PEER_CONFIG@),
                clusterwide("CiliumBGPAdvertisement"@, lb::BGP_ADVERTISEMENT@),
            ],
        }
    }
}

/// How a typed object is found in the cluster.
spec fn typed_key(obj: ObjectView) -> (Seq<char>, Option<Seq<char>>, Seq<char>) {
    (api_of(obj).kind, metadata_of(obj).namespace, given(metadata_of(obj).name, ""@))
}

/// Which objects a config renders, and in which order, follows from whether it
/// runs a standalone Envoy, whether it has LB-IPAM, and what it announces with:
/// no other setting adds, drops, renames or reorders one.
pub proof fn law_the_object_list(cfg: EffectiveConfigView)
    ensures
        render_view(cfg).map_values(|r: RenderedView| key(r)) == core_keys() + envoy_keys(
            cfg.envoy,
        ) + lb_keys(cfg.lb_ipam, cfg.announce),
{
    lemma_rendered(cfg);
    let keyed = |r: RenderedView| key(r);
    let typed = objects(cfg).map_values(|o: ObjectView| typed_key(o));
    let crs = lb::render_view(cfg).map_values(keyed);
    assert(typed =~= core_keys() + envoy_keys(cfg.envoy));
    assert(crs =~= lb_keys(cfg.lb_ipam, cfg.announce));
    assert(render_view(cfg).map_values(keyed) =~= typed + crs);
}

/// The id of the object with a key.
spec fn id_of(k: (Seq<char>, Option<Seq<char>>, Seq<char>)) -> Seq<char> {
    match k.1 {
        Some(ns) => k.0 + "/"@ + ns + "/"@ + k.2,
        None => k.0 + "/"@ + k.2,
    }
}

/// What tells the ids apart: no two of one length start alike.
spec fn mark(id: Seq<char>) -> (nat, char) {
    (id.len(), id[0])
}

/// The marks of the ids that a config renders, in order.
#[verifier::opaque]
spec fn marks(cfg: EffectiveConfigView) -> Seq<(nat, char)> {
    seq![
        (33, 'S'),
        (42, 'S'),
        (18, 'C'),
        (27, 'C'),
        (25, 'C'),
        (34, 'C'),
        (36, 'R'),
        (43, 'R'),
        (35, 'C'),
        (28, 'D'),
        (38, 'D'),
    ] + if cfg.envoy {
        seq![(39, 'S'), (41, 'C'), (34, 'D'), (32, 'S')]
    } else {
        seq![]
    } + if !cfg.lb_ipam {
        seq![]
    } else {
        seq![(38, 'C')] + match cfg.announce {
            Announce::Off => seq![],
            Announce::L2 => seq![(40, 'C')],
            Announce::Bgp => seq![(28, 'C'), (31, 'C'), (43, 'C')],
        }
    }
}

proof fn lemma_marks(cfg: EffectiveConfigView)
    ensures
        (core_keys() + envoy_keys(cfg.envoy) + lb_keys(cfg.lb_ipam, cfg.announce)).map_values(
            |k: (Seq<char>, Option<Seq<char>>, Seq<char>)| mark(id_of(k)),
        ) == marks(cfg),
{
    reveal(marks);
    reveal_strlit("/");
    reveal_strlit("CiliumBGPAdvertisement");
    reveal_strlit("CiliumBGPClusterConfig");
    reveal_strlit("CiliumBGPPeerConfig");
    reveal_strlit("CiliumL2AnnouncementPolicy");
    reveal_strlit("CiliumLoadBalancerIPPool");
    reveal_strlit("ClusterRole");
    reveal_strlit("ClusterRoleBinding");
    reveal_strlit("ConfigMap");
    reveal_strlit("DaemonSet");
    reveal_strlit("Deployment");
    reveal_strlit("Role");
    reveal_strlit("RoleBinding");
    reveal_strlit("Service");
    reveal_strlit("ServiceAccount");
    reveal_strlit("cilium");
    reveal_strlit("cilium-config");
    reveal_strlit("cilium-config-agent");
    reveal_strlit("cilium-envoy");
    reveal_strlit("cilium-envoy-config");
    reveal_strlit("cilium-operator");
    reveal_strlit("kube-system");
    reveal_strlit("storm");
    reveal_strlit("storm-advertisements");
    reveal_strlit("storm-default");
    reveal_strlit("storm-peers");
    let all = core_keys() + envoy_keys(cfg.envoy) + lb_keys(cfg.lb_ipam, cfg.announce);
    assert(all.map_values(
        |k: (Seq<char>, Option<Seq<char>>, Seq<char>)| mark(id_of(k)),
    ) =~= marks(cfg));
}

proof fn lemma_marks_differ(cfg: EffectiveConfigView)
    ensures
        marks(cfg).no_duplicates(),
{
    reveal(marks);
}

/// No two rendered objects share an id, so that an id stands for one object.
pub proof fn law_ids_are_unique(cfg: EffectiveConfigView)
    ensures
        forall|i: int, j: int|
            0 <= i < j < render_view(cfg).len() ==> (#[trigger] render_view(cfg)[i]).id() != (
            #[trigger] render_view(cfg)[j]).id(),
{
    law_the_object_list(cfg);
    lemma_marks(cfg);
    lemma_marks_differ(cfg);
    let all = render_view(cfg);
    let keys = all.map_values(|r: RenderedView| key(r));
    let marked = |k: (Seq<char>, Option<Seq<char>>, Seq<char>)| mark(id_of(k));
    assert(keys.map_values(marked) == marks(cfg));
    assert forall|i: int| 0 <= i < all.len() implies mark((#[trigger] all[i]).id())
        == marks(cfg)[i] by {
        assert(keys[i] == key(all[i]));
        assert(keys.map_values(marked)[i] == mark(id_of(keys[i])));
    }
    assert forall|i: int, j: int| 0 <= i < j < all.len() implies (#[trigger] all[i]).id() != (
    #[trigger] all[j]).id() by {
        assert(marks(cfg)[i] != marks(cfg)[j]);
    }
}

pub(crate) proof fn lemma_ids_spelled()
    ensures
        "ServiceAccount"@ + "/"@ + "kube-system"@ + "/"@ + "cilium"@ == "ServiceAccount/kube-system/cilium"@,
        "ServiceAccount"@ + "/"@ + "kube-system"@ + "/"@ + "cilium-operator"@ == "ServiceAccount/kube-system/cilium-operator"@,
        "ClusterRole"@ + "/"@ + "cilium"@ == "ClusterRole/cilium"@,
        "ClusterRole"@ + "/"@ + "cilium-operator"@ == "ClusterRole/cilium-operator"@,
        "ClusterRoleBinding"@ + "/"@ + "cilium"@ == "ClusterRoleBinding/cilium"@,
        "ClusterRoleBinding"@ + "/"@ + "cilium-operator"@ == "ClusterRoleBinding/cilium-operator"@,
        "Role"@ + "/"@ + "kube-system"@ + "/"@ + "cilium-config-agent"@ == "Role/kube-system/cilium-config-agent"@,
        "RoleBinding"@ + "/"@ + "kube-system"@ + "/"@ + "cilium-config-agent"@ == "RoleBinding/kube-system/cilium-config-agent"@,
        "ConfigMap"@ + "/"@ + "kube-system"@ + "/"@ + "cilium-config"@ == "ConfigMap/kube-system/cilium-config"@,
        "DaemonSet"@ + "/"@ + "kube-system"@ + "/"@ + "cilium"@ == "DaemonSet/kube-system/cilium"@,
        "Deployment"@ + "/"@ + "kube-system"@ + "/"@ + "cilium-operator"@ == "Deployment/kube-system/cilium-operator"@,
        "ServiceAccount"@ + "/"@ + "kube-system"@ + "/"@ + "cilium-envoy"@ == "ServiceAccount/kube-system/cilium-envoy"@,
        "ConfigMap"@ + "/"@ + "kube-system"@ + "/"@ + "cilium-envoy-config"@ == "ConfigMap/kube-system/cilium-envoy-config"@,
        "DaemonSet"@ + "/"@ + "kube-system"@ + "/"@ + "cilium-envoy"@ == "DaemonSet/kube-system/cilium-envoy"@,
        "Service"@ + "/"@ + "kube-system"@ + "/"@ + "cilium-envoy"@ == "Service/kube-system/cilium-envoy"@,
        "CiliumLoadBalancerIPPool"@ + "/"@ + "storm-default"@ == "CiliumLoadBalancerIPPool/storm-default"@,
        "CiliumL2AnnouncementPolicy"@ + "/"@ + "storm-default"@ == "CiliumL2AnnouncementPolicy/storm-default"@,
        "CiliumBGPClusterConfig"@ + "/"@ + "storm"@ == "CiliumBGPClusterConfig/storm"@,
        "CiliumBGPPeerConfig"@ + "/"@ + "storm-peers"@ == "CiliumBGPPeerConfig/storm-peers"@,
        "CiliumBGPAdvertisement"@ + "/"@ + "storm-advertisements"@ == "CiliumBGPAdvertisement/storm-advertisements"@,
{
    reveal_strlit("/");
    reveal_strlit("CiliumBGPAdvertisement");
    reveal_strlit("CiliumBGPClusterConfig");
    reveal_strlit("CiliumBGPPeerConfig");
    reveal_strlit("CiliumL2AnnouncementPolicy");
    reveal_strlit("CiliumLoadBalancerIPPool");
    reveal_strlit("ClusterRole");
    reveal_strlit("ClusterRoleBinding");
    reveal_strlit("ConfigMap");
    reveal_strlit("DaemonSet");
    reveal_strlit("Deployment");
    reveal_strlit("Role");
    reveal_strlit("RoleBinding");
    reveal_strlit("Service");
    reveal_strlit("ServiceAccount");
    reveal_strlit("cilium");
    reveal_strlit("cilium-config");
    reveal_strlit("cilium-config-agent");
    reveal_strlit("cilium-envoy");
    reveal_strlit("cilium-envoy-config");
    reveal_strlit("cilium-operator");
    reveal_strlit("kube-system");
    reveal_strlit("storm");
    reveal_strlit("storm-advertisements");
    reveal_strlit("storm-default");
    reveal_strlit("storm-peers");
    reveal_strlit("ServiceAccount/kube-system/cilium");
    reveal_strlit("ServiceAccount/kube-system/cilium-operator");
    reveal_strlit("ClusterRole/cilium");
    reveal_strlit("ClusterRole/cilium-operator");
    reveal_strlit("ClusterRoleBinding/cilium");
    reveal_strlit("ClusterRoleBinding/cilium-operator");
    reveal_strlit("Role/kube-system/cilium-config-agent");
    reveal_strlit("RoleBinding/kube-system/cilium-config-agent");
    reveal_strlit("ConfigMap/kube-system/cilium-config");
    reveal_strlit("DaemonSet/kube-system/cilium");
    reveal_strlit("Deployment/kube-system/cilium-operator");
    reveal_strlit("ServiceAccount/kube-system/cilium-envoy");
    reveal_strlit("ConfigMap/kube-system/cilium-envoy-config");
    reveal_strlit("DaemonSet/kube-system/cilium-envoy");
    reveal_strlit("Service/kube-system/cilium-envoy");
    reveal_strlit("CiliumLoadBalancerIPPool/storm-default");
    reveal_strlit("CiliumL2AnnouncementPolicy/storm-default");
    reveal_strlit("CiliumBGPClusterConfig/storm");
    reveal_strlit("CiliumBGPPeerConfig/storm-peers");
    reveal_strlit("CiliumBGPAdvertisement/storm-advertisements");
    assert("ServiceAccount"@ + "/"@ + "kube-system"@ + "/"@ + "cilium"@ =~= "ServiceAccount/kube-system/cilium"@);
    assert("ServiceAccount"@ + "/"@ + "kube-system"@ + "/"@ + "cilium-operator"@ =~= "ServiceAccount/kube-system/cilium-operator"@);
    assert("ClusterRole"@ + "/"@ + "cilium"@ =~= "ClusterRole/cilium"@);
    assert("ClusterRole"@ + "/"@ + "cilium-operator"@ =~= "ClusterRole/cilium-operator"@);
    assert("ClusterRoleBinding"@ + "/"@ + "cilium"@ =~= "ClusterRoleBinding/cilium"@);
    assert("ClusterRoleBinding"@ + "/"@ + "cilium-operator"@ =~= "ClusterRoleBinding/cilium-operator"@);
    assert("Role"@ + "/"@ + "kube-system"@ + "/"@ + "cilium-config-agent"@ =~= "Role/kube-system/cilium-config-agent"@);
    assert("RoleBinding"@ + "/"@ + "kube-system"@ + "/"@ + "cilium-config-agent"@ =~= "RoleBinding/kube-system/cilium-config-agent"@);
    assert("ConfigMap"@ + "/"@ + "kube-system"@ + "/"@ + "cilium-config"@ =~= "ConfigMap/kube-system/cilium-config"@);
    assert("DaemonSet"@ + "/"@ + "kube-system"@ + "/"@ + "cilium"@ =~= "DaemonSet/kube-system/cilium"@);
    assert("Deployment"@ + "/"@ + "kube-system"@ + "/"@ + "cilium-operator"@ =~= "Deployment/kube-system/cilium-operator"@);
    assert("ServiceAccount"@ + "/"@ + "kube-system"@ + "/"@ + "cilium-envoy"@ =~= "ServiceAccount/kube-system/cilium-envoy"@);
    assert("ConfigMap"@ + "/"@ + "kube-system"@ + "/"@ + "cilium-envoy-config"@ =~= "ConfigMap/kube-system/cilium-envoy-config"@);
    assert("DaemonSet"@ + "/"@ + "kube-system"@ + "/"@ + "cilium-envoy"@ =~= "DaemonSet/kube-system/cilium-envoy"@);
    assert("Service"@ + "/"@ + "kube-system"@ + "/"@ + "cilium-envoy"@ =~= "Service/kube-system/cilium-envoy"@);
    assert("CiliumLoadBalancerIPPool"@ + "/"@ + "storm-default"@ =~= "CiliumLoadBalancerIPPool/storm-default"@);
    assert("CiliumL2AnnouncementPolicy"@ + "/"@ + "storm-default"@ =~= "CiliumL2AnnouncementPolicy/storm-default"@);
    assert("CiliumBGPClusterConfig"@ + "/"@ + "storm"@ =~= "CiliumBGPClusterConfig/storm"@);
    assert("CiliumBGPPeerConfig"@ + "/"@ + "storm-peers"@ =~= "CiliumBGPPeerConfig/storm-peers"@);
    assert("CiliumBGPAdvertisement"@ + "/"@ + "storm-advertisements"@ =~= "CiliumBGPAdvertisement/storm-advertisements"@);
}

/// The ids of all rendered objects, in order.
pub proof fn law_the_ids(cfg: EffectiveConfigView)
    ensures
        render_view(cfg).map_values(|r: RenderedView| r.id()) == seq![
            "ServiceAccount/kube-system/cilium"@,
            "ServiceAccount/kube-system/cilium-operator"@,
            "ClusterRole/cilium"@,
            "ClusterRole/cilium-operator"@,
            "ClusterRoleBinding/cilium"@,
            "ClusterRoleBinding/cilium-operator"@,
            "Role/kube-system/cilium-config-agent"@,
            "RoleBinding/kube-system/cilium-config-agent"@,
            "ConfigMap/kube-system/cilium-config"@,
            "DaemonSet/kube-system/cilium"@,
            "Deployment/kube-system/cilium-operator"@,
        ] + (if cfg.envoy {
            seq![
                "ServiceAccount/kube-system/cilium-envoy"@,
                "ConfigMap/kube-system/cilium-envoy-config"@,
                "DaemonSet/kube-system/cilium-envoy"@,
                "Service/kube-system/cilium-envoy"@,
            ]
        } else {
            seq![]
        }) + (if !cfg.lb_ipam {
            seq![]
        } else {
            match cfg.announce {
                Announce::Off => seq!["CiliumLoadBalancerIPPool/storm-default"@],
                Announce::L2 => seq![
                    "CiliumLoadBalancerIPPool/storm-default"@,
                    "CiliumL2AnnouncementPolicy/storm-default"@,
                ],
                Announce::Bgp => seq![
                    "CiliumLoadBalancerIPPool/storm-default"@,
                    "CiliumBGPClusterConfig/storm"@,
                    "CiliumBGPPeerConfig/storm-peers"@,
                    "CiliumBGPAdvertisement/storm-advertisements"@,
                ],
            }
        }),
{
    law_the_object_list(cfg);
    lemma_ids_spelled();
    let keys = render_view(cfg).map_values(|r: RenderedView| key(r));
    let spelled = keys.map_values(
        |k: (Seq<char>, Option<Seq<char>>, Seq<char>)| id_of(k),
    );
    assert(render_view(cfg).map_values(|r: RenderedView| r.id()) =~= spelled);
}

/// Which Cilium CRs are rendered: the pool with LB-IPAM, and with it what the
/// config announces through.
pub proof fn law_which_crs_are_rendered(cfg: EffectiveConfigView)
    ensures
        has_id(render_view(cfg), "CiliumLoadBalancerIPPool/storm-default"@) <==> cfg.lb_ipam,
        has_id(render_view(cfg), "CiliumL2AnnouncementPolicy/storm-default"@) <==> cfg.lb_ipam
            && cfg.announce == Announce::L2,
        has_id(render_view(cfg), "CiliumBGPClusterConfig/storm"@) <==> cfg.lb_ipam && cfg.announce
            == Announce::Bgp,
        has_id(render_view(cfg), "CiliumBGPPeerConfig/storm-peers"@) <==> cfg.lb_ipam
            && cfg.announce == Announce::Bgp,
        has_id(render_view(cfg), "CiliumBGPAdvertisement/storm-advertisements"@) <==> cfg.lb_ipam
            && cfg.announce == Announce::Bgp,
{
    law_the_ids(cfg);
    lemma_id_marks();
    let all = render_view(cfg);
    let ids = all.map_values(|r: RenderedView| r.id());
    assert forall|id: Seq<char>| #[trigger] has_id(all, id) <==> ids.contains(id) by {
        if has_id(all, id) {
            let i = choose|i: int| 0 <= i < all.len() && (#[trigger] all[i]).id() == id;
            assert(ids[i] == id);
        }
        if ids.contains(id) {
            let i = choose|i: int| 0 <= i < ids.len() && ids[i] == id;
            assert(all[i].id() == id);
        }
    }
    let n: int = if cfg.envoy {
        15
    } else {
        11
    };
    if cfg.lb_ipam {
        assert(ids[n] == "CiliumLoadBalancerIPPool/storm-default"@);
        if cfg.announce == Announce::L2 {
            assert(ids[n + 1] == "CiliumL2AnnouncementPolicy/storm-default"@);
        }
        if cfg.announce == Announce::Bgp {
            assert(ids[n + 1] == "CiliumBGPClusterConfig/storm"@);
            assert(ids[n + 2] == "CiliumBGPPeerConfig/storm-peers"@);
            assert(ids[n + 3] == "CiliumBGPAdvertisement/storm-advertisements"@);
        }
    }
}

/// The ids of the Cilium CRs that a pass may reap.
pub proof fn law_the_ids_of_the_crs(cfg: EffectiveConfigView)
    ensures
        lb::all_variants_view(cfg).len() == 5,
        lb::all_variants_view(cfg)[0].id() == "CiliumBGPAdvertisement/storm-advertisements"@,
        lb::all_variants_view(cfg)[1].id() == "CiliumBGPClusterConfig/storm"@,
        lb::all_variants_view(cfg)[2].id() == "CiliumBGPPeerConfig/storm-peers"@,
        lb::all_variants_view(cfg)[3].id() == "CiliumL2AnnouncementPolicy/storm-default"@,
        lb::all_variants_view(cfg)[4].id() == "CiliumLoadBalancerIPPool/storm-default"@,
{
    lemma_ids_spelled();
}

proof fn lemma_id_marks()
    ensures
        mark("ServiceAccount/kube-system/cilium"@) == (33nat, 'S'),
        mark("ServiceAccount/kube-system/cilium-operator"@) == (42nat, 'S'),
        mark("ClusterRole/cilium"@) == (18nat, 'C'),
        mark("ClusterRole/cilium-operator"@) == (27nat, 'C'),
        mark("ClusterRoleBinding/cilium"@) == (25nat, 'C'),
        mark("ClusterRoleBinding/cilium-operator"@) == (34nat, 'C'),
        mark("Role/kube-system/cilium-config-agent"@) == (36nat, 'R'),
        mark("RoleBinding/kube-system/cilium-config-agent"@) == (43nat, 'R'),
        mark("ConfigMap/kube-system/cilium-config"@) == (35nat, 'C'),
        mark("DaemonSet/kube-system/cilium"@) == (28nat, 'D'),
        mark("Deployment/kube-system/cilium-operator"@) == (38nat, 'D'),
        mark("ServiceAccount/kube-system/cilium-envoy"@) == (39nat, 'S'),
        mark("ConfigMap/kube-system/cilium-envoy-config"@) == (41nat, 'C'),
        mark("DaemonSet/kube-system/cilium-envoy"@) == (34nat, 'D'),
        mark("Service/kube-system/cilium-envoy"@) == (32nat, 'S'),
        mark("CiliumLoadBalancerIPPool/storm-default"@) == (38nat, 'C'),
        mark("CiliumL2AnnouncementPolicy/storm-default"@) == (40nat, 'C'),
        mark("CiliumBGPClusterConfig/storm"@) == (28nat, 'C'),
        mark("CiliumBGPPeerConfig/storm-peers"@) == (31nat, 'C'),
        mark("CiliumBGPAdvertisement/storm-advertisements"@) == (43nat, 'C'),
{
    reveal_strlit("ServiceAccount/kube-system/cilium");
    reveal_strlit("ServiceAccount/kube-system/cilium-operator");
    reveal_strlit("ClusterRole/cilium");
    reveal_strlit("ClusterRole/cilium-operator");
    reveal_strlit("ClusterRoleBinding/cilium");
    reveal_strlit("ClusterRoleBinding/cilium-operator");
    reveal_strlit("Role/kube-system/cilium-config-agent");
    reveal_strlit("RoleBinding/kube-system/cilium-config-agent");
    reveal_strlit("ConfigMap/kube-system/cilium-config");
    reveal_strlit("DaemonSet/kube-system/cilium");
    reveal_strlit("Deployment/kube-system/cilium-operator");
    reveal_strlit("ServiceAccount/kube-system/cilium-envoy");
    reveal_strlit("ConfigMap/kube-system/cilium-envoy-config");
    reveal_strlit("DaemonSet/kube-system/cilium-envoy");
    reveal_strlit("Service/kube-system/cilium-envoy");
    reveal_strlit("CiliumLoadBalancerIPPool/storm-default");
    reveal_strlit("CiliumL2AnnouncementPolicy/storm-default");
    reveal_strlit("CiliumBGPClusterConfig/storm");
    reveal_strlit("CiliumBGPPeerConfig/storm-peers");
    reveal_strlit("CiliumBGPAdvertisement/storm-advertisements");
}

// --- what every object carries ---------------------------------------------

/// Metadata with the common labels and the owner.
pub open spec fn stamped(cfg: EffectiveConfigView, m: ObjectMetaView) -> bool {
    &&& m.labels matches Some(labels) && {
        &&& labels.contains_key("app.kubernetes.io/managed-by"@)
        &&& labels["app.kubernetes.io/managed-by"@] == "network-operator"@
        &&& labels.contains_key("app.kubernetes.io/part-of"@)
        &&& labels["app.kubernetes.io/part-of"@] == "cilium"@
        &&& labels.contains_key("network.storm.io/owner"@)
        &&& labels["network.storm.io/owner"@] == cfg.network_name
    }
    &&& match cfg.network_uid {
        Some(uid) => {
            &&& m.owner_references matches Some(owners) && {
                &&& owners.len() == 1
                &&& owners[0].uid == uid
                &&& owners[0].name == cfg.network_name
                &&& owners[0].kind == "Network"@
                &&& owners[0].api_version == "network.storm.io/v1"@
                &&& owners[0].controller == Some(true)
                &&& owners[0].block_owner_deletion == Some(true)
            }
        },
        None => m.owner_references is None,
    }
}

/// A key that is none of the common labels.
spec fn uncommon(k: Seq<char>) -> bool {
    &&& k != "app.kubernetes.io/managed-by"@
    &&& k != "app.kubernetes.io/part-of"@
    &&& k != "network.storm.io/owner"@
}

proof fn lemma_overlaid_keeps(
    labels: Map<Seq<char>, Seq<char>>,
    extra: Seq<(Seq<char>, Seq<char>)>,
    k: Seq<char>,
)
    requires
        labels.contains_key(k),
        forall|i: int| 0 <= i < extra.len() ==> (#[trigger] extra[i]).0 != k,
    ensures
        overlaid(labels, extra).contains_key(k),
        overlaid(labels, extra)[k] == labels[k],
    decreases extra.len(),
{
    if extra.len() > 0 {
        assert(extra.last() == extra[extra.len() - 1]);
        assert forall|i: int| 0 <= i < extra.drop_last().len() implies (
        #[trigger] extra.drop_last()[i]).0 != k by {
            assert(extra.drop_last()[i] == extra[i]);
        }
        lemma_overlaid_keeps(labels, extra.drop_last(), k);
    }
}

proof fn lemma_common_labels_differ()
    ensures
        "app.kubernetes.io/managed-by"@ != "app.kubernetes.io/part-of"@,
        "app.kubernetes.io/managed-by"@ != "network.storm.io/owner"@,
        "app.kubernetes.io/part-of"@ != "network.storm.io/owner"@,
{
    reveal_strlit("app.kubernetes.io/managed-by");
    reveal_strlit("app.kubernetes.io/part-of");
    reveal_strlit("network.storm.io/owner");
    assert("app.kubernetes.io/managed-by"@.len() == 28);
    assert("app.kubernetes.io/part-of"@.len() == 25);
    assert("network.storm.io/owner"@.len() == 22);
}

proof fn lemma_meta_stamped(
    cfg: EffectiveConfigView,
    name: Seq<char>,
    extra: Seq<(Seq<char>, Seq<char>)>,
)
    requires
        forall|i: int| 0 <= i < extra.len() ==> uncommon((#[trigger] extra[i]).0),
    ensures
        stamped(cfg, meta_view(cfg, name, extra)),
        stamped(cfg, cluster_meta_view(cfg, name, extra)),
{
    lemma_common_labels_differ();
    let common = common_labels_view(cfg);
    lemma_overlaid_keeps(common, extra, "app.kubernetes.io/managed-by"@);
    lemma_overlaid_keeps(common, extra, "app.kubernetes.io/part-of"@);
    lemma_overlaid_keeps(common, extra, "network.storm.io/owner"@);
}

proof fn lemma_extra_labels_are_uncommon()
    ensures
        uncommon(agent::APP_LABEL_KEY@),
        uncommon(operator::APP_LABEL_KEY@),
        uncommon(operator::NAME_LABEL_KEY@),
        uncommon(envoy::APP_LABEL_KEY@),
        uncommon(envoy::NAME_LABEL_KEY@),
        uncommon(lb::ADVERTISE_LABEL_KEY@),
{
    reveal_strlit("app.kubernetes.io/managed-by");
    reveal_strlit("app.kubernetes.io/part-of");
    reveal_strlit("network.storm.io/owner");
    reveal_strlit("k8s-app");
    reveal_strlit("name");
    reveal_strlit("io.cilium/app");
    reveal_strlit("advertise");
    assert("app.kubernetes.io/managed-by"@.len() == 28);
    assert("app.kubernetes.io/part-of"@.len() == 25);
    assert("network.storm.io/owner"@.len() == 22);
    assert("k8s-app"@.len() == 7);
    assert("name"@.len() == 4);
    assert("io.cilium/app"@.len() == 13);
    assert("advertise"@.len() == 9);
}

proof fn lemma_objects_stamped(cfg: EffectiveConfigView)
    ensures
        forall|i: int|
            0 <= i < objects(cfg).len() ==> stamped(
                cfg,
                metadata_of(#[trigger] objects(cfg)[i]),
            ),
{
    lemma_extra_labels_are_uncommon();
    lemma_meta_stamped(cfg, AGENT_SA@, seq![]);
    lemma_meta_stamped(cfg, OPERATOR_SA@, seq![]);
    lemma_meta_stamped(cfg, rbac::CONFIG_READER@, seq![]);
    lemma_meta_stamped(cfg, CONFIG_MAP@, seq![]);
    lemma_meta_stamped(
        cfg,
        AGENT_DS@,
        seq![(agent::APP_LABEL_KEY@, agent::APP_LABEL_VALUE@)],
    );
    lemma_meta_stamped(
        cfg,
        OPERATOR_DEPLOY@,
        seq![
            (operator::APP_LABEL_KEY@, operator::APP_LABEL_VALUE@),
            (operator::NAME_LABEL_KEY@, operator::NAME_LABEL_VALUE@),
        ],
    );
    lemma_meta_stamped(cfg, envoy::ENVOY_SA@, seq![]);
    lemma_meta_stamped(cfg, envoy::ENVOY_CONFIG_MAP@, seq![]);
    lemma_meta_stamped(
        cfg,
        envoy::ENVOY_DS@,
        seq![
            (envoy::APP_LABEL_KEY@, envoy::APP_LABEL_VALUE@),
            (envoy::NAME_LABEL_KEY@, envoy::NAME_LABEL_VALUE@),
        ],
    );
}

proof fn lemma_lb_stamped(cfg: EffectiveConfigView)
    ensures
        forall|i: int|
            0 <= i < lb::render_view(cfg).len() ==> stamped(
                cfg,
                (#[trigger] lb::render_view(cfg)[i]).obj.metadata,
            ) && cilium_cr(lb::render_view(cfg)[i]),
{
    lemma_extra_labels_are_uncommon();
    lemma_meta_stamped(cfg, lb::POOL_NAME@, seq![]);
    lemma_meta_stamped(cfg, lb::BGP_CLUSTER_CONFIG@, seq![]);
    lemma_meta_stamped(cfg, lb::BGP_PEER_CONFIG@, seq![]);
    lemma_meta_stamped(
        cfg,
        lb::BGP_ADVERTISEMENT@,
        seq![(lb::ADVERTISE_LABEL_KEY@, lb::ADVERTISE_LABEL_VALUE@)],
    );
}

/// Every rendered object carries the managed-by, part-of and owner labels, and a
/// controller reference to its `Network` exactly if the uid of that is known.
pub proof fn law_every_object_is_stamped(cfg: EffectiveConfigView)
    ensures
        forall|i: int|
            0 <= i < render_view(cfg).len() ==> stamped(
                cfg,
                (#[trigger] render_view(cfg)[i]).obj.metadata,
            ),
{
    lemma_rendered(cfg);
    lemma_objects_stamped(cfg);
    lemma_lb_stamped(cfg);
}

/// Cilium's CRs come after everything else, because their CRDs arrive late: they
/// are exactly the objects behind the workloads.
pub proof fn law_cilium_crs_come_last(cfg: EffectiveConfigView)
    ensures
        forall|i: int|
            0 <= i < render_view(cfg).len() ==> (cilium_cr(#[trigger] render_view(cfg)[i]) <==> i
                >= render_view(cfg).len() - lb::render_view(cfg).len()),
{
    lemma_rendered(cfg);
    lemma_lb_stamped(cfg);
}

/// Without LB-IPAM no Cilium CR is rendered.
pub proof fn law_no_crs_without_lb_ipam(cfg: EffectiveConfigView)
    requires
        !cfg.lb_ipam,
    ensures
        forall|i: int|
            0 <= i < render_view(cfg).len() ==> !cilium_cr(#[trigger] render_view(cfg)[i]),
{
    law_cilium_crs_come_last(cfg);
}

// --- where, and of what ----------------------------------------------------

/// Sent under an apiVersion and kind, to where the apiserver serves that kind.
pub open spec fn served_at(
    r: RenderedView,
    group: Seq<char>,
    api_version: Seq<char>,
    kind: Seq<char>,
    plural: Seq<char>,
) -> bool {
    &&& r.api.group == group
    &&& r.api.version == "v1"@
    &&& r.api.api_version == api_version
    &&& r.api.kind == kind
    &&& r.api.plural == plural
    &&& r.obj.types matches Some(types) && types.api_version == api_version && types.kind == kind
    &&& r.namespace == r.obj.metadata.namespace
}

/// Each object is sent under the kind that it is, to where that kind is served.
pub proof fn law_each_object_is_sent_where_it_is_served(cfg: EffectiveConfigView)
    ensures
        ({
            let all = render_view(cfg);
            &&& served_at(all[0], ""@, "v1"@, "ServiceAccount"@, "serviceaccounts"@)
            &&& served_at(all[1], ""@, "v1"@, "ServiceAccount"@, "serviceaccounts"@)
            &&& served_at(all[2], "rbac.authorization.k8s.io"@, "rbac.authorization.k8s.io/v1"@, "ClusterRole"@, "clusterroles"@)
            &&& served_at(all[3], "rbac.authorization.k8s.io"@, "rbac.authorization.k8s.io/v1"@, "ClusterRole"@, "clusterroles"@)
            &&& served_at(all[4], "rbac.authorization.k8s.io"@, "rbac.authorization.k8s.io/v1"@, "ClusterRoleBinding"@, "clusterrolebindings"@)
            &&& served_at(all[5], "rbac.authorization.k8s.io"@, "rbac.authorization.k8s.io/v1"@, "ClusterRoleBinding"@, "clusterrolebindings"@)
            &&& served_at(all[6], "rbac.authorization.k8s.io"@, "rbac.authorization.k8s.io/v1"@, "Role"@, "roles"@)
            &&& served_at(all[7], "rbac.authorization.k8s.io"@, "rbac.authorization.k8s.io/v1"@, "RoleBinding"@, "rolebindings"@)
            &&& served_at(all[8], ""@, "v1"@, "ConfigMap"@, "configmaps"@)
            &&& served_at(all[9], "apps"@, "apps/v1"@, "DaemonSet"@, "daemonsets"@)
            &&& served_at(all[10], "apps"@, "apps/v1"@, "Deployment"@, "deployments"@)
            &&& cfg.envoy ==> {
                &&& served_at(all[11], ""@, "v1"@, "ServiceAccount"@, "serviceaccounts"@)
                &&& served_at(all[12], ""@, "v1"@, "ConfigMap"@, "configmaps"@)
                &&& served_at(all[13], "apps"@, "apps/v1"@, "DaemonSet"@, "daemonsets"@)
                &&& served_at(all[14], ""@, "v1"@, "Service"@, "services"@)
            }
        }),
{
    lemma_rendered(cfg);
    let all = render_view(cfg);
    let objects = objects(cfg);
    assert(all.len() >= 11);
    assert(sent_as(all[0], objects[0])
        && sent_as(all[1], objects[1])
        && sent_as(all[2], objects[2])
        && sent_as(all[3], objects[3])
        && sent_as(all[4], objects[4])
        && sent_as(all[5], objects[5])
        && sent_as(all[6], objects[6])
        && sent_as(all[7], objects[7])
        && sent_as(all[8], objects[8])
        && sent_as(all[9], objects[9])
        && sent_as(all[10], objects[10]));
    if cfg.envoy {
        assert(sent_as(all[11], objects[11])
            && sent_as(all[12], objects[12])
            && sent_as(all[13], objects[13])
            && sent_as(all[14], objects[14]));
    }
}

/// A render is made of its parts: everything that the parts render is rendered, as
/// they render it.
pub proof fn law_every_part_is_rendered(cfg: EffectiveConfigView, i: int)
    ensures
        0 <= i < 6 ==> render_view(cfg)[i] == rbac::render_view(cfg)[i],
        0 <= i < 2 ==> render_view(cfg)[6 + i] == rbac::render_namespaced_view(cfg)[i],
        render_view(cfg)[8] == config::render_view(cfg),
        render_view(cfg)[9] == agent::render_view(cfg),
        render_view(cfg)[10] == operator::render_view(cfg),
        0 <= i < envoy::render_view(cfg).len() ==> render_view(cfg)[11 + i]
            == envoy::render_view(cfg)[i],
        0 <= i < lb::render_view(cfg).len() ==> render_view(cfg)[11 + envoy::render_view(cfg).len()
            + i] == lb::render_view(cfg)[i],
        render_view(cfg).len() == 11 + envoy::render_view(cfg).len() + lb::render_view(cfg).len(),
{
}

/// The metadata of an object: its name and labels, the common ones and its own, and
/// nothing that the apiserver fills in.
pub proof fn law_what_metadata_holds(
    cfg: EffectiveConfigView,
    name: Seq<char>,
    key: Seq<char>,
    value: Seq<char>,
)
    ensures
        ({
            let m = meta_view(cfg, name, seq![(key, value)]);
            &&& m.name == Some(name)
            &&& m.namespace == Some("kube-system"@)
            &&& m.labels == Some(common_labels_view(cfg).insert(key, value))
            &&& m.uid is None && m.generation is None && m.resource_version is None
            &&& meta_view(cfg, name, seq![]).labels == Some(common_labels_view(cfg))
            &&& cluster_meta_view(cfg, name, seq![(key, value)]) == (ObjectMetaView {
                namespace: None,
                ..m
            })
        }),
{
    let extra = seq![(key, value)];
    assert(extra.drop_last() =~= seq![]);
    assert(extra.last() == (key, value));
    reveal_with_fuel(overlaid, 2);
}

} // verus!
