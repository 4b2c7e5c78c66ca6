//! The standalone `cilium-envoy` DaemonSet — Cilium's L7 proxy, split out of
//! the agent.
//!
//! Off by default: Cilium embeds the proxy in the agent unless you split it
//! out, and the embedded proxy serves L7 policy perfectly well. Splitting it
//! out decouples proxy restarts from agent restarts, which matters once L7
//! policy or Ingress is carrying real traffic.
//!
//! The bootstrap config in [`bootstrap`] is cluster-agnostic — the only CIDRs in
//! it are Envoy's stock RFC1918 internal-address ranges, not the cluster's pod
//! or service networks — so it needs no templating.
//!
//! Envoy talks to the agent over a unix socket, not the network: the agent
//! serves xDS on `/var/run/cilium/envoy/sockets/xds.sock`. That is why enabling
//! this also adds a mount to the agent DaemonSet.

use vstd::prelude::*;

use crate::k8s::meta::{LabelSelector, LabelSelectorView, ObjectMeta, ObjectMetaView};
use crate::k8s::pod::{
    Affinity, AffinityView, ConfigMapVolumeSource, ConfigMapVolumeSourceView, Container,
    ContainerPort, ContainerPortView, ContainerView, EnvVar, EnvVarView, IntOrString, KeyToPath,
    KeyToPathView, NodeAffinity, NodeAffinityView, NodeSelector, NodeSelectorRequirement,
    NodeSelectorRequirementView, NodeSelectorTerm, NodeSelectorTermView, NodeSelectorView,
    PodAffinity, PodAffinityTerm, PodAffinityTermView, PodAffinityView, PodAntiAffinity,
    PodAntiAffinityView, PodSpec, PodSpecView, PodTemplateSpec, PodTemplateSpecView, Probe,
    ProbeView, SecurityContext, SecurityContextView, Volume, VolumeMount, VolumeMountView,
    VolumeView,
};
use crate::k8s::resource::{
    ConfigMap, ConfigMapView, Service, ServiceAccount, ServiceAccountView, ServicePort,
    ServicePortView, ServiceSpec, ServiceSpecView, ServiceView,
};
use crate::k8s::workload::{
    DaemonSet, DaemonSetSpec, DaemonSetSpecView, DaemonSetUpdateStrategy,
    DaemonSetUpdateStrategyView, DaemonSetView,
};
use crate::modes::{EffectiveConfig, EffectiveConfigView};
use crate::render::agent::{self, endpoint_env};
use crate::render::metadata::{common_labels, label, meta};
use crate::render::object::{typed, Object, ObjectView, Rendered, RenderedView};
use crate::render::util::{
    mount, mount_bidirectional, host_path, caps, unconfined_pod_security,
    health_probe, tolerate_all,
};
use crate::string_map::StringMap;

pub mod bootstrap;

pub use self::bootstrap::BOOTSTRAP;

verus! {

use crate::render::agent::endpoint_env_view;
use crate::render::metadata::{common_labels_view, meta_view};
use crate::render::object::typed_view;
use crate::render::util::{
    mount_view, mount_bidirectional_view, host_path_view, caps_view,
    unconfined_pod_security_view, health_probe_view, tolerate_all_view,
};

pub const ENVOY_DS: &'static str = "cilium-envoy";

pub const ENVOY_SA: &'static str = "cilium-envoy";

pub const ENVOY_CONFIG_MAP: &'static str = "cilium-envoy-config";

/// Health endpoint, on loopback because the pod is host-networked.
pub const HEALTH_PORT: i32 = 9878;

/// Prometheus listener. A host port, again because of host networking.
pub const METRICS_PORT: i32 = 9964;

/// Directory the agent and Envoy share unix sockets through. The agent serves
/// xDS here; Envoy dials it. Mounted by both.
pub const SOCKET_DIR: &'static str = "/var/run/cilium/envoy/sockets";

pub const APP_LABEL_KEY: &'static str = "k8s-app";

pub const APP_LABEL_VALUE: &'static str = "cilium-envoy";

pub const NAME_LABEL_KEY: &'static str = "name";

pub const NAME_LABEL_VALUE: &'static str = "cilium-envoy";

/// The metadata of the DaemonSet and of the Service.
pub open spec fn object_meta_view(cfg: EffectiveConfigView) -> ObjectMetaView {
    meta_view(
        cfg,
        ENVOY_DS@,
        seq![(APP_LABEL_KEY@, APP_LABEL_VALUE@), (NAME_LABEL_KEY@, NAME_LABEL_VALUE@)],
    )
}

/// The metadata of the DaemonSet and of the Service.
pub fn object_meta(cfg: &EffectiveConfig) -> (r: ObjectMeta)
    ensures
        r.deep_view() == object_meta_view(cfg.deep_view()),
{
    let extra = [(APP_LABEL_KEY, APP_LABEL_VALUE), (NAME_LABEL_KEY, NAME_LABEL_VALUE)];
    assert(extra.deep_view() =~= seq![
        (APP_LABEL_KEY@, APP_LABEL_VALUE@),
        (NAME_LABEL_KEY@, NAME_LABEL_VALUE@),
    ]);
    meta(cfg, ENVOY_DS, &extra)
}

/// The labels of its pods.
pub open spec fn pod_labels_view(cfg: EffectiveConfigView) -> Map<Seq<char>, Seq<char>> {
    common_labels_view(cfg).insert(APP_LABEL_KEY@, APP_LABEL_VALUE@).insert(
        NAME_LABEL_KEY@,
        NAME_LABEL_VALUE@,
    )
}

/// The labels of its pods.
pub fn pod_labels(cfg: &EffectiveConfig) -> (r: StringMap)
    ensures
        r.deep_view() == pod_labels_view(cfg.deep_view()),
{
    let mut labels = common_labels(cfg);
    labels.insert(APP_LABEL_KEY, APP_LABEL_VALUE);
    labels.insert(NAME_LABEL_KEY, NAME_LABEL_VALUE);
    labels
}

/// Its identity.
pub open spec fn service_account_view(cfg: EffectiveConfigView) -> ServiceAccountView {
    ServiceAccountView { metadata: meta_view(cfg, ENVOY_SA@, seq![]) }
}

/// Its identity. Envoy needs no API access — it only talks to the agent over a
/// unix socket — so this ServiceAccount deliberately has no ClusterRole bound to
/// it.
pub fn service_account(cfg: &EffectiveConfig) -> (r: ServiceAccount)
    ensures
        r.deep_view() == service_account_view(cfg.deep_view()),
{
    let r = ServiceAccount { metadata: meta(cfg, ENVOY_SA, &[]) };
    assert(r.deep_view() =~= service_account_view(cfg.deep_view()));
    r
}

/// The ConfigMap with the bootstrap.
pub open spec fn config_map_view(cfg: EffectiveConfigView) -> ConfigMapView {
    ConfigMapView {
        metadata: meta_view(cfg, ENVOY_CONFIG_MAP@, seq![]),
        data: Some(Map::empty().insert("bootstrap-config.json"@, BOOTSTRAP@)),
    }
}

/// The ConfigMap with the bootstrap.
pub fn config_map(cfg: &EffectiveConfig) -> (r: ConfigMap)
    ensures
        r.deep_view() == config_map_view(cfg.deep_view()),
{
    let r = ConfigMap {
        metadata: meta(cfg, ENVOY_CONFIG_MAP, &[]),
        data: Some(label("bootstrap-config.json", BOOTSTRAP)),
    };
    assert(r.deep_view() =~~= config_map_view(cfg.deep_view()));
    r
}

/// No node that opts out with `cilium.io/no-schedule`, as the agent.
pub open spec fn node_affinity_view() -> NodeAffinityView {
    NodeAffinityView {
        required_during_scheduling_ignored_during_execution: Some(
            NodeSelectorView {
                node_selector_terms: seq![
                    NodeSelectorTermView {
                        match_expressions: Some(
                            seq![
                                NodeSelectorRequirementView {
                                    key: "cilium.io/no-schedule"@,
                                    operator: "NotIn"@,
                                    values: Some(seq!["true"@]),
                                },
                            ],
                        ),
                    },
                ],
            },
        ),
    }
}

/// No node that opts out with `cilium.io/no-schedule`, as the agent.
pub fn node_affinity() -> (r: NodeAffinity)
    ensures
        r.deep_view() == node_affinity_view(),
{
    let r = NodeAffinity {
        required_during_scheduling_ignored_during_execution: Some(
            NodeSelector {
                node_selector_terms: vec![
                    NodeSelectorTerm {
                        match_expressions: Some(
                            vec![
                                NodeSelectorRequirement {
                                    key: "cilium.io/no-schedule".to_string(),
                                    operator: "NotIn".to_string(),
                                    values: Some(vec!["true".to_string()]),
                                },
                            ],
                        ),
                    },
                ],
            },
        ),
    };
    assert(r.deep_view() =~~= node_affinity_view());
    r
}

/// The pods with a label, node by node.
pub open spec fn pods_on_node_view(key: Seq<char>, value: Seq<char>) -> PodAffinityTermView {
    PodAffinityTermView {
        label_selector: Some(LabelSelectorView { match_labels: Some(Map::empty().insert(key, value)) }),
        topology_key: "kubernetes.io/hostname"@,
    }
}

/// The pods with a label, node by node.
pub fn pods_on_node(key: &str, value: &str) -> (r: PodAffinityTerm)
    ensures
        r.deep_view() == pods_on_node_view(key@, value@),
{
    let r = PodAffinityTerm {
        label_selector: Some(LabelSelector { match_labels: Some(label(key, value)) }),
        topology_key: "kubernetes.io/hostname".to_string(),
    };
    assert(r.deep_view() =~~= pods_on_node_view(key@, value@));
    r
}

/// Where it runs.
pub open spec fn affinity_view() -> AffinityView {
    AffinityView {
        node_affinity: Some(node_affinity_view()),
        pod_affinity: Some(
            PodAffinityView {
                required_during_scheduling_ignored_during_execution: Some(
                    seq![pods_on_node_view("k8s-app"@, "cilium"@)],
                ),
            },
        ),
        pod_anti_affinity: Some(
            PodAntiAffinityView {
                required_during_scheduling_ignored_during_execution: Some(
                    seq![pods_on_node_view(APP_LABEL_KEY@, APP_LABEL_VALUE@)],
                ),
            },
        ),
    }
}

/// Where it runs. Three constraints, all load-bearing:
///
/// * **node affinity** — respect `cilium.io/no-schedule`, the same opt-out the
///   agent honours.
/// * **pod affinity on `k8s-app=cilium`** — Envoy is useless on a node with no
///   agent, since it reaches xDS through the agent's socket.
/// * **pod anti-affinity on itself** — host-networked, so two Envoys on one
///   node would collide on the metrics host port.
pub fn affinity() -> (r: Affinity)
    ensures
        r.deep_view() == affinity_view(),
{
    let r = Affinity {
        node_affinity: Some(node_affinity()),
        pod_affinity: Some(
            PodAffinity {
                required_during_scheduling_ignored_during_execution: Some(
                    vec![pods_on_node("k8s-app", "cilium")],
                ),
            },
        ),
        pod_anti_affinity: Some(
            PodAntiAffinity {
                required_during_scheduling_ignored_during_execution: Some(
                    vec![pods_on_node(APP_LABEL_KEY, APP_LABEL_VALUE)],
                ),
            },
        ),
    };
    assert(r.deep_view() =~~= affinity_view());
    r
}

/// Its environment.
pub open spec fn envoy_env_view(cfg: EffectiveConfigView) -> Seq<EnvVarView> {
    endpoint_env_view(cfg)
}

/// Its environment.
pub fn envoy_env(cfg: &EffectiveConfig) -> (r: Vec<EnvVar>)
    ensures
        r.deep_view() == envoy_env_view(cfg.deep_view()),
{
    endpoint_env(cfg)
}

/// Envoy comes up fast but must wait for the agent's xDS socket to exist, so
/// the startup budget is generous (105 x 2s).
pub open spec fn startup_probe_view() -> ProbeView {
    ProbeView {
        failure_threshold: Some(105),
        period_seconds: Some(2),
        initial_delay_seconds: Some(5),
        success_threshold: Some(1),
        ..health_probe_view(HEALTH_PORT, "/healthz"@)
    }
}

/// Envoy comes up fast but must wait for the agent's xDS socket to exist, so the
/// startup budget is generous (105 x 2s).
pub fn startup_probe() -> (r: Probe)
    ensures
        r.deep_view() == startup_probe_view(),
{
    let r = Probe {
        failure_threshold: Some(105),
        period_seconds: Some(2),
        initial_delay_seconds: Some(5),
        success_threshold: Some(1),
        ..health_probe(HEALTH_PORT, "/healthz")
    };
    assert(r.deep_view() =~~= startup_probe_view());
    r
}

/// Restart it when it stops answering.
pub open spec fn liveness_probe_view() -> ProbeView {
    ProbeView {
        period_seconds: Some(30),
        timeout_seconds: Some(5),
        failure_threshold: Some(10),
        success_threshold: Some(1),
        ..health_probe_view(HEALTH_PORT, "/healthz"@)
    }
}

/// Restart it when it stops answering.
pub fn liveness_probe() -> (r: Probe)
    ensures
        r.deep_view() == liveness_probe_view(),
{
    let r = Probe {
        period_seconds: Some(30),
        timeout_seconds: Some(5),
        failure_threshold: Some(10),
        success_threshold: Some(1),
        ..health_probe(HEALTH_PORT, "/healthz")
    };
    assert(r.deep_view() =~~= liveness_probe_view());
    r
}

/// Count it as ready while it answers.
pub open spec fn readiness_probe_view() -> ProbeView {
    ProbeView {
        period_seconds: Some(30),
        timeout_seconds: Some(5),
        failure_threshold: Some(3),
        success_threshold: Some(1),
        ..health_probe_view(HEALTH_PORT, "/healthz"@)
    }
}

/// Count it as ready while it answers.
pub fn readiness_probe() -> (r: Probe)
    ensures
        r.deep_view() == readiness_probe_view(),
{
    let r = Probe {
        period_seconds: Some(30),
        timeout_seconds: Some(5),
        failure_threshold: Some(3),
        success_threshold: Some(1),
        ..health_probe(HEALTH_PORT, "/healthz")
    };
    assert(r.deep_view() =~~= readiness_probe_view());
    r
}

/// Not fully privileged, unlike the agent: Envoy needs to program transparent
/// sockets and enter namespaces, nothing more.
pub open spec fn security_view() -> SecurityContextView {
    caps_view(seq!["NET_ADMIN"@, "SYS_ADMIN"@])
}

/// Not fully privileged, unlike the agent: Envoy needs to program transparent
/// sockets and enter namespaces, nothing more.
pub fn security() -> (r: SecurityContext)
    ensures
        r.deep_view() == security_view(),
{
    let r = caps(vec!["NET_ADMIN".to_string(), "SYS_ADMIN".to_string()]);
    assert(r.deep_view() =~~= security_view());
    r
}

/// Its one container.
pub open spec fn container_view(cfg: EffectiveConfigView) -> ContainerView {
    ContainerView {
        name: "cilium-envoy"@,
        image: Some(cfg.envoy_image),
        image_pull_policy: Some("IfNotPresent"@),
        command: Some(seq!["/usr/bin/cilium-envoy-starter"@]),
        args: Some(
            seq![
                "--"@,
                "-c /var/run/cilium/envoy/bootstrap-config.json"@,
                "--base-id 0"@,
                "--log-level info"@,
            ],
        ),
        env: Some(envoy_env_view(cfg)),
        ports: Some(
            seq![
                ContainerPortView {
                    name: Some("envoy-metrics"@),
                    container_port: METRICS_PORT,
                    host_port: Some(METRICS_PORT),
                    protocol: Some("TCP"@),
                },
            ],
        ),
        security_context: Some(security_view()),
        startup_probe: Some(startup_probe_view()),
        liveness_probe: Some(liveness_probe_view()),
        readiness_probe: Some(readiness_probe_view()),
        termination_message_policy: Some("FallbackToLogsOnError"@),
        volume_mounts: Some(
            seq![
                mount_view("envoy-sockets"@, SOCKET_DIR@),
                mount_view("envoy-artifacts"@, "/var/run/cilium/envoy/artifacts"@),
                mount_view("envoy-config"@, "/var/run/cilium/envoy/"@),
                mount_bidirectional_view("bpf-maps"@, "/sys/fs/bpf"@),
            ],
        ),
        ..ContainerView::unset()
    }
}

/// Its one container. The starter passes everything after `--` through to Envoy
/// itself.
pub fn container(cfg: &EffectiveConfig) -> (r: Container)
    ensures
        r.deep_view() == container_view(cfg.deep_view()),
{
    let r = Container {
        name: "cilium-envoy".to_string(),
        image: Some(cfg.envoy_image.clone()),
        image_pull_policy: Some("IfNotPresent".to_string()),
        command: Some(vec!["/usr/bin/cilium-envoy-starter".to_string()]),
        args: Some(
            vec![
                "--".to_string(),
                "-c /var/run/cilium/envoy/bootstrap-config.json".to_string(),
                "--base-id 0".to_string(),
                "--log-level info".to_string(),
            ],
        ),
        env: Some(envoy_env(cfg)),
        ports: Some(
            vec![
                ContainerPort {
                    name: Some("envoy-metrics".to_string()),
                    container_port: METRICS_PORT,
                    host_port: Some(METRICS_PORT),
                    protocol: Some("TCP".to_string()),
                },
            ],
        ),
        security_context: Some(security()),
        startup_probe: Some(startup_probe()),
        liveness_probe: Some(liveness_probe()),
        readiness_probe: Some(readiness_probe()),
        termination_message_policy: Some("FallbackToLogsOnError".to_string()),
        volume_mounts: Some(
            vec![
                mount("envoy-sockets", SOCKET_DIR),
                mount("envoy-artifacts", "/var/run/cilium/envoy/artifacts"),
                mount("envoy-config", "/var/run/cilium/envoy/"),
                mount_bidirectional("bpf-maps", "/sys/fs/bpf"),
            ],
        ),
        ..Container::default()
    };
    assert(r.deep_view() =~~= container_view(cfg.deep_view()));
    r
}

/// The volume of the bootstrap.
pub open spec fn config_volume_view() -> VolumeView {
    VolumeView {
        name: "envoy-config"@,
        config_map: Some(
            ConfigMapVolumeSourceView {
                name: ENVOY_CONFIG_MAP@,
                default_mode: Some(256),
                items: Some(
                    seq![
                        KeyToPathView {
                            key: "bootstrap-config.json"@,
                            path: "bootstrap-config.json"@,
                        },
                    ],
                ),
            },
        ),
        ..VolumeView::unset()
    }
}

/// The volume of the bootstrap. 0400 — it is read once, by Envoy, at startup.
pub fn config_volume() -> (r: Volume)
    ensures
        r.deep_view() == config_volume_view(),
{
    let r = Volume {
        name: "envoy-config".to_string(),
        config_map: Some(
            ConfigMapVolumeSource {
                name: ENVOY_CONFIG_MAP.to_string(),
                default_mode: Some(256),
                items: Some(
                    vec![
                        KeyToPath {
                            key: "bootstrap-config.json".to_string(),
                            path: "bootstrap-config.json".to_string(),
                        },
                    ],
                ),
            },
        ),
        ..Volume::default()
    };
    assert(r.deep_view() =~~= config_volume_view());
    r
}

/// The volumes of the pod.
pub open spec fn volumes_view() -> Seq<VolumeView> {
    seq![
        host_path_view("envoy-sockets"@, SOCKET_DIR@, "DirectoryOrCreate"@),
        host_path_view("envoy-artifacts"@, "/var/run/cilium/envoy/artifacts"@, "DirectoryOrCreate"@),
        config_volume_view(),
        host_path_view("bpf-maps"@, "/sys/fs/bpf"@, "DirectoryOrCreate"@),
    ]
}

/// The volumes of the pod.
pub fn volumes() -> (r: Vec<Volume>)
    ensures
        r.deep_view() == volumes_view(),
{
    let r = vec![
        host_path("envoy-sockets", SOCKET_DIR, "DirectoryOrCreate"),
        host_path("envoy-artifacts", "/var/run/cilium/envoy/artifacts", "DirectoryOrCreate"),
        config_volume(),
        host_path("bpf-maps", "/sys/fs/bpf", "DirectoryOrCreate"),
    ];
    assert(r.deep_view() =~~= volumes_view());
    r
}

/// The pod.
pub open spec fn pod_spec_view(cfg: EffectiveConfigView) -> PodSpecView {
    PodSpecView {
        service_account_name: Some(ENVOY_SA@),
        host_network: Some(true),
        priority_class_name: Some("system-node-critical"@),
        restart_policy: Some("Always"@),
        termination_grace_period_seconds: Some(1),
        node_selector: Some(Map::empty().insert("kubernetes.io/os"@, "linux"@)),
        tolerations: Some(tolerate_all_view()),
        security_context: Some(unconfined_pod_security_view(true)),
        affinity: Some(affinity_view()),
        containers: seq![container_view(cfg)],
        volumes: Some(volumes_view()),
        ..PodSpecView::unset()
    }
}

/// The pod.
pub fn pod_spec(cfg: &EffectiveConfig) -> (r: PodSpec)
    ensures
        r.deep_view() == pod_spec_view(cfg.deep_view()),
{
    let r = PodSpec {
        service_account_name: Some(ENVOY_SA.to_string()),
        host_network: Some(true),
        priority_class_name: Some("system-node-critical".to_string()),
        restart_policy: Some("Always".to_string()),
        termination_grace_period_seconds: Some(1),
        node_selector: Some(label("kubernetes.io/os", "linux")),
        tolerations: Some(tolerate_all()),
        security_context: Some(unconfined_pod_security(true)),
        affinity: Some(affinity()),
        containers: vec![container(cfg)],
        volumes: Some(volumes()),
        ..PodSpec::default()
    };
    assert(r.deep_view() =~~= pod_spec_view(cfg.deep_view()));
    r
}

/// The label that selects its pods.
pub open spec fn selector_view() -> LabelSelectorView {
    LabelSelectorView { match_labels: Some(Map::empty().insert(APP_LABEL_KEY@, APP_LABEL_VALUE@)) }
}

/// The label that selects its pods.
pub fn selector() -> (r: LabelSelector)
    ensures
        r.deep_view() == selector_view(),
{
    let r = LabelSelector { match_labels: Some(label(APP_LABEL_KEY, APP_LABEL_VALUE)) };
    assert(r.deep_view() =~~= selector_view());
    r
}

/// Two nodes at a time, as the agent.
pub open spec fn update_strategy_view() -> DaemonSetUpdateStrategyView {
    agent::update_strategy_view()
}

/// Two nodes at a time, as the agent.
pub fn update_strategy() -> (r: DaemonSetUpdateStrategy)
    ensures
        r.deep_view() == update_strategy_view(),
{
    agent::update_strategy()
}

/// The DaemonSet.
pub open spec fn daemon_set_view(cfg: EffectiveConfigView) -> DaemonSetView {
    DaemonSetView {
        metadata: object_meta_view(cfg),
        spec: Some(
            DaemonSetSpecView {
                selector: selector_view(),
                update_strategy: Some(update_strategy_view()),
                template: PodTemplateSpecView {
                    metadata: Some(
                        ObjectMetaView { labels: Some(pod_labels_view(cfg)), ..ObjectMetaView::unset() },
                    ),
                    spec: Some(pod_spec_view(cfg)),
                },
            },
        ),
    }
}

/// The DaemonSet.
pub fn daemon_set(cfg: &EffectiveConfig) -> (r: DaemonSet)
    ensures
        r.deep_view() == daemon_set_view(cfg.deep_view()),
{
    let r = DaemonSet {
        metadata: object_meta(cfg),
        spec: Some(
            DaemonSetSpec {
                selector: selector(),
                update_strategy: Some(update_strategy()),
                template: PodTemplateSpec {
                    metadata: Some(
                        ObjectMeta { labels: Some(pod_labels(cfg)), ..ObjectMeta::default() },
                    ),
                    spec: Some(pod_spec(cfg)),
                },
            },
        ),
    };
    assert(r.deep_view() =~= daemon_set_view(cfg.deep_view()));
    r
}

/// Headless service, purely so Prometheus can discover the metrics port.
pub open spec fn service_view(cfg: EffectiveConfigView) -> ServiceView {
    ServiceView {
        metadata: object_meta_view(cfg),
        spec: Some(
            ServiceSpecView {
                type_: Some("ClusterIP"@),
                cluster_ip: Some("None"@),
                selector: Some(Map::empty().insert(APP_LABEL_KEY@, APP_LABEL_VALUE@)),
                ports: Some(
                    seq![
                        ServicePortView {
                            name: Some("envoy-metrics"@),
                            port: METRICS_PORT,
                            target_port: Some(IntOrString::Int(METRICS_PORT)),
                            protocol: Some("TCP"@),
                        },
                    ],
                ),
            },
        ),
    }
}

/// Headless service, purely so Prometheus can discover the metrics port.
pub fn service(cfg: &EffectiveConfig) -> (r: Service)
    ensures
        r.deep_view() == service_view(cfg.deep_view()),
{
    let r = Service {
        metadata: object_meta(cfg),
        spec: Some(
            ServiceSpec {
                type_: Some("ClusterIP".to_string()),
                cluster_ip: Some("None".to_string()),
                selector: Some(label(APP_LABEL_KEY, APP_LABEL_VALUE)),
                ports: Some(
                    vec![
                        ServicePort {
                            name: Some("envoy-metrics".to_string()),
                            port: METRICS_PORT,
                            target_port: Some(IntOrString::Int(METRICS_PORT)),
                            protocol: Some("TCP".to_string()),
                        },
                    ],
                ),
            },
        ),
    };
    assert(r.deep_view() =~~= service_view(cfg.deep_view()));
    r
}

/// Everything of a standalone Envoy; nothing where the agent embeds it.
pub open spec fn render_view(cfg: EffectiveConfigView) -> Seq<RenderedView> {
    if cfg.envoy {
        seq![
            typed_view(ObjectView::ServiceAccount(service_account_view(cfg))),
            typed_view(ObjectView::ConfigMap(config_map_view(cfg))),
            typed_view(ObjectView::DaemonSet(daemon_set_view(cfg))),
            typed_view(ObjectView::Service(service_view(cfg))),
        ]
    } else {
        seq![]
    }
}

/// A standalone Envoy, ready to apply; nothing where the agent embeds it.
pub fn render(cfg: &EffectiveConfig) -> (r: Vec<Rendered>)
    ensures
        r.deep_view() == render_view(cfg.deep_view()),
{
    let r = if cfg.envoy {
        vec![
            typed(Object::ServiceAccount(service_account(cfg))),
            typed(Object::ConfigMap(config_map(cfg))),
            typed(Object::DaemonSet(daemon_set(cfg))),
            typed(Object::Service(service(cfg))),
        ]
    } else {
        Vec::new()
    };
    assert(r.deep_view() =~= render_view(cfg.deep_view()));
    r
}

/// The socket-directory volume the agent needs so it can serve xDS to a
/// standalone Envoy.
pub open spec fn agent_socket_volume_view() -> VolumeView {
    host_path_view("envoy-sockets"@, SOCKET_DIR@, "DirectoryOrCreate"@)
}

/// The socket-directory volume the agent needs so it can serve xDS to a
/// standalone Envoy. Only added to the agent when Envoy is split out.
pub fn agent_socket_volume() -> (r: Volume)
    ensures
        r.deep_view() == agent_socket_volume_view(),
{
    let r = host_path("envoy-sockets", SOCKET_DIR, "DirectoryOrCreate");
    assert(r.deep_view() =~~= agent_socket_volume_view());
    r
}

/// The mount of that directory in the agent.
pub open spec fn agent_socket_mount_view() -> VolumeMountView {
    mount_view("envoy-sockets"@, SOCKET_DIR@)
}

/// The mount of that directory in the agent.
pub fn agent_socket_mount() -> (r: VolumeMount)
    ensures
        r.deep_view() == agent_socket_mount_view(),
{
    let r = mount("envoy-sockets", SOCKET_DIR);
    assert(r.deep_view() =~~= agent_socket_mount_view());
    r
}

} // verus!
