//! The `cilium-operator` Deployment — Cilium's own control plane (CRD
//! installation, cluster-pool IPAM allocation, identity/endpoint GC).
//!
//! Note the layering: *this* operator installs *that* one. `cilium-operator`
//! manages Cilium's data; `network-operator` manages Cilium's lifecycle.

use vstd::prelude::*;

use crate::k8s::meta::{LabelSelector, LabelSelectorView, ObjectMeta, ObjectMetaView};
use crate::k8s::pod::{
    Affinity, AffinityView, Container, ContainerView, EnvVar, EnvVarView, PodAffinityTerm,
    PodAffinityTermView, PodAntiAffinity, PodAntiAffinityView, PodSpec, PodSpecView,
    PodTemplateSpec, PodTemplateSpecView, Probe, ProbeView,
};
use crate::k8s::workload::{
    Deployment, DeploymentSpec, DeploymentSpecView, DeploymentStrategy, DeploymentStrategyView,
    DeploymentView,
};
use crate::modes::{EffectiveConfig, EffectiveConfigView};
use crate::render::agent::endpoint_env;
use crate::render::metadata::{common_labels, label, meta, with_label};
use crate::render::names::{CONFIG_MAP, OPERATOR_DEPLOY, OPERATOR_SA};
use crate::render::object::{typed, Object, ObjectView, Rendered, RenderedView};
use crate::render::util::{
    env_config, mount_ro, config_map_volume, health_probe, tolerate_all,
};
use crate::string_map::StringMap;

verus! {

use crate::render::agent::endpoint_env_view;
use crate::render::metadata::{common_labels_view, meta_view};
use crate::render::object::typed_view;
use crate::render::util::{
    env_config_view, mount_ro_view, config_map_volume_view,
    health_probe_view, tolerate_all_view,
};

pub const APP_LABEL_KEY: &'static str = "io.cilium/app";

pub const APP_LABEL_VALUE: &'static str = "operator";

pub const NAME_LABEL_KEY: &'static str = "name";

pub const NAME_LABEL_VALUE: &'static str = "cilium-operator";

/// The operator's health server, on localhost because the pod is host-networked.
pub const HEALTH_PORT: i32 = 9234;

/// Single replica by design. The operator is not in the dataplane path — the
/// agents keep forwarding while it is down — and it is host-networked, so a
/// second replica cannot share a node without colliding on the health port.
/// Scaling up is safe (leader election + the anti-affinity below), but it buys
/// less than it costs on the cluster sizes this stack targets.
pub const REPLICAS: i32 = 1;

/// The metadata of the Deployment.
pub open spec fn object_meta_view(cfg: EffectiveConfigView) -> ObjectMetaView {
    meta_view(
        cfg,
        OPERATOR_DEPLOY@,
        seq![(APP_LABEL_KEY@, APP_LABEL_VALUE@), (NAME_LABEL_KEY@, NAME_LABEL_VALUE@)],
    )
}

/// The metadata of the Deployment.
pub fn object_meta(cfg: &EffectiveConfig) -> (r: ObjectMeta)
    ensures
        r.deep_view() == object_meta_view(cfg.deep_view()),
{
    let extra = [(APP_LABEL_KEY, APP_LABEL_VALUE), (NAME_LABEL_KEY, NAME_LABEL_VALUE)];
    assert(extra.deep_view() =~= seq![
        (APP_LABEL_KEY@, APP_LABEL_VALUE@),
        (NAME_LABEL_KEY@, NAME_LABEL_VALUE@),
    ]);
    meta(cfg, OPERATOR_DEPLOY, &extra)
}

/// The labels of its pods.
pub open spec fn pod_labels_view(cfg: EffectiveConfigView) -> Map<Seq<char>, Seq<char>> {
    common_labels_view(cfg).insert(APP_LABEL_KEY@, APP_LABEL_VALUE@).insert(
        NAME_LABEL_KEY@,
        NAME_LABEL_VALUE@,
    )
}

/// The labels of its pods.
pub fn pod_labels(cfg: &EffectiveConfig) -> (r: StringMap)
    ensures
        r.deep_view() == pod_labels_view(cfg.deep_view()),
{
    let mut labels = common_labels(cfg);
    labels.insert(APP_LABEL_KEY, APP_LABEL_VALUE);
    labels.insert(NAME_LABEL_KEY, NAME_LABEL_VALUE);
    labels
}

/// No two on one node.
pub open spec fn affinity_view() -> AffinityView {
    AffinityView {
        node_affinity: None,
        pod_affinity: None,
        pod_anti_affinity: Some(
            PodAntiAffinityView {
                required_during_scheduling_ignored_during_execution: Some(
                    seq![
                        PodAffinityTermView {
                            label_selector: Some(
                                LabelSelectorView {
                                    match_labels: Some(Map::empty().insert(APP_LABEL_KEY@, APP_LABEL_VALUE@)),
                                },
                            ),
                            topology_key: "kubernetes.io/hostname"@,
                        },
                    ],
                ),
            },
        ),
    }
}

/// No two on one node.
pub fn affinity() -> (r: Affinity)
    ensures
        r.deep_view() == affinity_view(),
{
    let r = Affinity {
        node_affinity: None,
        pod_affinity: None,
        pod_anti_affinity: Some(
            PodAntiAffinity {
                required_during_scheduling_ignored_during_execution: Some(
                    vec![
                        PodAffinityTerm {
                            label_selector: Some(
                                LabelSelector {
                                    match_labels: Some(label(APP_LABEL_KEY, APP_LABEL_VALUE)),
                                },
                            ),
                            topology_key: "kubernetes.io/hostname".to_string(),
                        },
                    ],
                ),
            },
        ),
    };
    assert(r.deep_view() =~~= affinity_view());
    r
}

/// Its environment.
pub open spec fn operator_env_view(cfg: EffectiveConfigView) -> Seq<EnvVarView> {
    endpoint_env_view(cfg).push(env_config_view("CILIUM_DEBUG"@, "debug"@, CONFIG_MAP@))
}

/// Its environment.
pub fn operator_env(cfg: &EffectiveConfig) -> (r: Vec<EnvVar>)
    ensures
        r.deep_view() == operator_env_view(cfg.deep_view()),
{
    let mut r = endpoint_env(cfg);
    r.push(env_config("CILIUM_DEBUG", "debug", CONFIG_MAP));
    assert(r.deep_view() =~= operator_env_view(cfg.deep_view()));
    r
}

/// Restart it when it stops answering.
pub open spec fn liveness_probe_view() -> ProbeView {
    ProbeView {
        initial_delay_seconds: Some(60),
        period_seconds: Some(10),
        timeout_seconds: Some(3),
        failure_threshold: Some(3),
        ..health_probe_view(HEALTH_PORT, "/healthz"@)
    }
}

/// Restart it when it stops answering.
pub fn liveness_probe() -> (r: Probe)
    ensures
        r.deep_view() == liveness_probe_view(),
{
    let r = Probe {
        initial_delay_seconds: Some(60),
        period_seconds: Some(10),
        timeout_seconds: Some(3),
        failure_threshold: Some(3),
        ..health_probe(HEALTH_PORT, "/healthz")
    };
    assert(r.deep_view() =~~= liveness_probe_view());
    r
}

/// Count it as ready while it answers.
pub open spec fn readiness_probe_view() -> ProbeView {
    ProbeView {
        initial_delay_seconds: Some(0),
        period_seconds: Some(5),
        timeout_seconds: Some(3),
        failure_threshold: Some(5),
        ..health_probe_view(HEALTH_PORT, "/healthz"@)
    }
}

/// Count it as ready while it answers.
pub fn readiness_probe() -> (r: Probe)
    ensures
        r.deep_view() == readiness_probe_view(),
{
    let r = Probe {
        initial_delay_seconds: Some(0),
        period_seconds: Some(5),
        timeout_seconds: Some(3),
        failure_threshold: Some(5),
        ..health_probe(HEALTH_PORT, "/healthz")
    };
    assert(r.deep_view() =~~= readiness_probe_view());
    r
}

/// Its one container.
pub open spec fn container_view(cfg: EffectiveConfigView) -> ContainerView {
    ContainerView {
        name: "cilium-operator"@,
        image: Some(cfg.operator_image()),
        image_pull_policy: Some("IfNotPresent"@),
        command: Some(seq!["cilium-operator-generic"@]),
        args: Some(
            seq![
                "--config-dir=/tmp/cilium/config-map"@,
                "--debug=$(CILIUM_DEBUG)"@,
            ],
        ),
        env: Some(operator_env_view(cfg)),
        liveness_probe: Some(liveness_probe_view()),
        readiness_probe: Some(readiness_probe_view()),
        volume_mounts: Some(seq![mount_ro_view("cilium-config-path"@, "/tmp/cilium/config-map"@)]),
        termination_message_policy: Some("FallbackToLogsOnError"@),
        ..ContainerView::unset()
    }
}

/// Its one container.
pub fn container(cfg: &EffectiveConfig) -> (r: Container)
    ensures
        r.deep_view() == container_view(cfg.deep_view()),
{
    let r = Container {
        name: "cilium-operator".to_string(),
        image: Some(cfg.operator_image()),
        image_pull_policy: Some("IfNotPresent".to_string()),
        command: Some(vec!["cilium-operator-generic".to_string()]),
        args: Some(
            vec![
                "--config-dir=/tmp/cilium/config-map".to_string(),
                "--debug=$(CILIUM_DEBUG)".to_string(),
            ],
        ),
        env: Some(operator_env(cfg)),
        liveness_probe: Some(liveness_probe()),
        readiness_probe: Some(readiness_probe()),
        volume_mounts: Some(vec![mount_ro("cilium-config-path", "/tmp/cilium/config-map")]),
        termination_message_policy: Some("FallbackToLogsOnError".to_string()),
        ..Container::default()
    };
    assert(r.deep_view() =~~= container_view(cfg.deep_view()));
    r
}

/// The pod.
pub open spec fn pod_spec_view(cfg: EffectiveConfigView) -> PodSpecView {
    PodSpecView {
        service_account_name: Some(OPERATOR_SA@),
        host_network: Some(true),
        dns_policy: Some("ClusterFirstWithHostNet"@),
        priority_class_name: Some("system-cluster-critical"@),
        restart_policy: Some("Always"@),
        tolerations: Some(tolerate_all_view()),
        affinity: Some(affinity_view()),
        containers: seq![container_view(cfg)],
        volumes: Some(seq![config_map_volume_view("cilium-config-path"@, CONFIG_MAP@)]),
        ..PodSpecView::unset()
    }
}

/// The pod. Host network for the same reason as the agent: with kube-proxy
/// replacement there is no route to the apiserver Service until the agents are
/// running.
pub fn pod_spec(cfg: &EffectiveConfig) -> (r: PodSpec)
    ensures
        r.deep_view() == pod_spec_view(cfg.deep_view()),
{
    let r = PodSpec {
        service_account_name: Some(OPERATOR_SA.to_string()),
        host_network: Some(true),
        dns_policy: Some("ClusterFirstWithHostNet".to_string()),
        priority_class_name: Some("system-cluster-critical".to_string()),
        restart_policy: Some("Always".to_string()),
        tolerations: Some(tolerate_all()),
        affinity: Some(affinity()),
        containers: vec![container(cfg)],
        volumes: Some(vec![config_map_volume("cilium-config-path", CONFIG_MAP)]),
        ..PodSpec::default()
    };
    assert(r.deep_view() =~~= pod_spec_view(cfg.deep_view()));
    r
}

/// The labels that select its pods.
pub open spec fn selector_view() -> LabelSelectorView {
    LabelSelectorView {
        match_labels: Some(
            Map::empty().insert(APP_LABEL_KEY@, APP_LABEL_VALUE@).insert(
                NAME_LABEL_KEY@,
                NAME_LABEL_VALUE@,
            ),
        ),
    }
}

/// The labels that select its pods.
pub fn selector() -> (r: LabelSelector)
    ensures
        r.deep_view() == selector_view(),
{
    let labels = label(APP_LABEL_KEY, APP_LABEL_VALUE);
    LabelSelector { match_labels: Some(with_label(labels, NAME_LABEL_KEY, NAME_LABEL_VALUE)) }
}

/// The Deployment.
pub open spec fn deployment_view(cfg: EffectiveConfigView) -> DeploymentView {
    DeploymentView {
        metadata: object_meta_view(cfg),
        spec: Some(
            DeploymentSpecView {
                replicas: Some(REPLICAS),
                selector: selector_view(),
                strategy: Some(DeploymentStrategyView { type_: Some("Recreate"@) }),
                template: PodTemplateSpecView {
                    metadata: Some(
                        ObjectMetaView { labels: Some(pod_labels_view(cfg)), ..ObjectMetaView::unset() },
                    ),
                    spec: Some(pod_spec_view(cfg)),
                },
            },
        ),
    }
}

/// The Deployment. Recreate, not RollingUpdate: two host-networked operators on
/// one node would fight over the health port during a rollout.
pub fn deployment(cfg: &EffectiveConfig) -> (r: Deployment)
    ensures
        r.deep_view() == deployment_view(cfg.deep_view()),
{
    let r = Deployment {
        metadata: object_meta(cfg),
        spec: Some(
            DeploymentSpec {
                replicas: Some(REPLICAS),
                selector: selector(),
                strategy: Some(DeploymentStrategy { type_: Some("Recreate".to_string()) }),
                template: PodTemplateSpec {
                    metadata: Some(
                        ObjectMeta { labels: Some(pod_labels(cfg)), ..ObjectMeta::default() },
                    ),
                    spec: Some(pod_spec(cfg)),
                },
            },
        ),
    };
    assert(r.deep_view() =~= deployment_view(cfg.deep_view()));
    r
}

/// `cilium-operator`, ready to apply.
pub open spec fn render_view(cfg: EffectiveConfigView) -> RenderedView {
    typed_view(ObjectView::Deployment(deployment_view(cfg)))
}

/// `cilium-operator`, ready to apply.
pub fn render(cfg: &EffectiveConfig) -> (r: Rendered)
    ensures
        r.deep_view() == render_view(cfg.deep_view()),
{
    let r = typed(Object::Deployment(deployment(cfg)));
    assert(r.deep_view() =~= render_view(cfg.deep_view()));
    r
}

} // verus!
