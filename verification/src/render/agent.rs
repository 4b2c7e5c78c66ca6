//! The `cilium` agent DaemonSet — the dataplane itself.
//!
//! Shape follows the upstream Cilium install: a chain of privileged init
//! containers that prepare the host (cgroupv2 mount, sysctls, bpffs, state
//! cleanup, CNI binary install), then the long-running `cilium-agent`.
//!
//! Two things here are load-bearing for this stack in particular:
//!
//! * `KUBERNETES_SERVICE_HOST`/`PORT` are set explicitly. With kube-proxy
//!   replacement there is no iptables rule for the kubernetes Service, so the
//!   agent must be told where the apiserver is or it cannot bootstrap.
//! * A `startupProbe` guards the long first boot (BPF compile + map init) so a
//!   slow start is not liveness-killed.

use vstd::prelude::*;

use crate::k8s::meta::{LabelSelector, LabelSelectorView, ObjectMeta, ObjectMetaView};
use crate::k8s::pod::{
    Container, ContainerView, EnvVar, EnvVarView, IntOrString, PodSpec, PodSpecView,
    PodTemplateSpec, PodTemplateSpecView, Probe, ProbeView, Volume, VolumeMount, VolumeMountView,
    VolumeView,
};
use crate::k8s::workload::{
    DaemonSet, DaemonSetSpec, DaemonSetSpecView, DaemonSetUpdateStrategy,
    DaemonSetUpdateStrategyView, DaemonSetView, RollingUpdateDaemonSet, RollingUpdateDaemonSetView,
};
use crate::modes::{EffectiveConfig, EffectiveConfigView};
use crate::render::envoy::{agent_socket_mount, agent_socket_volume};
use crate::render::metadata::{common_labels, label, meta};
use crate::render::names::{AGENT_DS, AGENT_HEALTH_PORT, AGENT_SA, CONFIG_MAP};
use crate::render::object::{typed, Object, ObjectView, Rendered, RenderedView};
use crate::render::util::{
    env, env_field, env_config, mount, mount_ro, mount_bidirectional, host_path, empty_dir,
    config_map_volume, privileged, caps, caps_no_selinux, selinux_only, unconfined_pod_security,
    health_probe, tolerate_all,
};
use crate::string_map::StringMap;
use crate::text::decimal_string;

verus! {

use crate::render::envoy::{agent_socket_mount_view, agent_socket_volume_view};
use crate::render::metadata::{common_labels_view, meta_view};
use crate::render::object::typed_view;
use crate::render::util::{
    env_view, env_field_view, env_config_view, mount_view, mount_ro_view, mount_bidirectional_view,
    host_path_view, empty_dir_view, config_map_volume_view, privileged_view, caps_view,
    caps_no_selinux_view, selinux_only_view, unconfined_pod_security_view, health_probe_view,
    tolerate_all_view,
};
use crate::text::decimal;

/// Pod selector label. Immutable on a DaemonSet, so it must never be derived
/// from anything in the spec.
pub const APP_LABEL_KEY: &'static str = "k8s-app";

pub const APP_LABEL_VALUE: &'static str = "cilium";

/// Mount cgroupv2 in the host's namespaces.
pub const MOUNT_CGROUP: &'static str =
    "cp /usr/bin/cilium-mount /hostbin/cilium-mount; nsenter --cgroup=/hostproc/1/ns/cgroup --mount=/hostproc/1/ns/mnt \"${BIN_PATH}/cilium-mount\" $CGROUP_ROOT; rm /hostbin/cilium-mount";

/// Overwrite the sysctls that get in the way of the datapath.
pub const APPLY_SYSCTL: &'static str =
    "cp /usr/bin/cilium-sysctlfix /hostbin/cilium-sysctlfix; nsenter --mount=/hostproc/1/ns/mnt \"${BIN_PATH}/cilium-sysctlfix\"; rm /hostbin/cilium-sysctlfix";

/// Mount bpffs where it is not mounted yet.
pub const MOUNT_BPF: &'static str =
    "mount | grep \"/sys/fs/bpf type bpf\" || mount -t bpf bpf /sys/fs/bpf";

/// Capabilities the agent needs to program the datapath: narrower than blanket
/// `privileged: true`.
pub open spec fn agent_caps_view() -> Seq<Seq<char>> {
    seq![
        "CHOWN"@,
        "KILL"@,
        "NET_ADMIN"@,
        "NET_RAW"@,
        "IPC_LOCK"@,
        "SYS_MODULE"@,
        "SYS_ADMIN"@,
        "SYS_RESOURCE"@,
        "DAC_OVERRIDE"@,
        "FOWNER"@,
        "SETGID"@,
        "SETUID"@,
        "SYSLOG"@,
    ]
}

/// Capabilities the agent needs to program the datapath: narrower than blanket
/// `privileged: true`.
pub fn agent_caps() -> (r: Vec<String>)
    ensures
        r.deep_view() == agent_caps_view(),
{
    let r = vec![
        "CHOWN".to_string(),
        "KILL".to_string(),
        "NET_ADMIN".to_string(),
        "NET_RAW".to_string(),
        "IPC_LOCK".to_string(),
        "SYS_MODULE".to_string(),
        "SYS_ADMIN".to_string(),
        "SYS_RESOURCE".to_string(),
        "DAC_OVERRIDE".to_string(),
        "FOWNER".to_string(),
        "SETGID".to_string(),
        "SETUID".to_string(),
        "SYSLOG".to_string(),
    ];
    assert(r.deep_view() =~~= agent_caps_view());
    r
}

/// Entering PID 1's namespaces needs these three and nothing else.
pub open spec fn nsenter_caps_view() -> Seq<Seq<char>> {
    seq!["SYS_ADMIN"@, "SYS_CHROOT"@, "SYS_PTRACE"@]
}

/// Entering PID 1's namespaces needs these three and nothing else.
pub fn nsenter_caps() -> (r: Vec<String>)
    ensures
        r.deep_view() == nsenter_caps_view(),
{
    let r = vec!["SYS_ADMIN".to_string(), "SYS_CHROOT".to_string(), "SYS_PTRACE".to_string()];
    assert(r.deep_view() =~~= nsenter_caps_view());
    r
}

/// The metadata of the DaemonSet.
pub open spec fn object_meta_view(cfg: EffectiveConfigView) -> ObjectMetaView {
    meta_view(cfg, AGENT_DS@, seq![(APP_LABEL_KEY@, APP_LABEL_VALUE@)])
}

/// The metadata of the DaemonSet.
pub fn object_meta(cfg: &EffectiveConfig) -> (r: ObjectMeta)
    ensures
        r.deep_view() == object_meta_view(cfg.deep_view()),
{
    let extra = [(APP_LABEL_KEY, APP_LABEL_VALUE)];
    assert(extra.deep_view() =~= seq![(APP_LABEL_KEY@, APP_LABEL_VALUE@)]);
    meta(cfg, AGENT_DS, &extra)
}

/// The labels of its pods.
pub open spec fn pod_labels_view(cfg: EffectiveConfigView) -> Map<Seq<char>, Seq<char>> {
    common_labels_view(cfg).insert(APP_LABEL_KEY@, APP_LABEL_VALUE@)
}

/// The labels of its pods.
pub fn pod_labels(cfg: &EffectiveConfig) -> (r: StringMap)
    ensures
        r.deep_view() == pod_labels_view(cfg.deep_view()),
{
    let mut labels = common_labels(cfg);
    labels.insert(APP_LABEL_KEY, APP_LABEL_VALUE);
    labels
}

/// Where the containers that talk to the apiserver find it, and who they are.
pub open spec fn endpoint_env_view(cfg: EffectiveConfigView) -> Seq<EnvVarView> {
    seq![
        env_field_view("K8S_NODE_NAME"@, "spec.nodeName"@),
        env_field_view("CILIUM_K8S_NAMESPACE"@, "metadata.namespace"@),
        env_view("KUBERNETES_SERVICE_HOST"@, cfg.k8s_service_host),
        env_view("KUBERNETES_SERVICE_PORT"@, decimal(cfg.k8s_service_port as nat)),
    ]
}

/// Where the containers that talk to the apiserver find it, and who they are.
pub fn endpoint_env(cfg: &EffectiveConfig) -> (r: Vec<EnvVar>)
    ensures
        r.deep_view() == endpoint_env_view(cfg.deep_view()),
{
    let r = vec![
        env_field("K8S_NODE_NAME", "spec.nodeName"),
        env_field("CILIUM_K8S_NAMESPACE", "metadata.namespace"),
        env("KUBERNETES_SERVICE_HOST", cfg.k8s_service_host.as_str()),
        env("KUBERNETES_SERVICE_PORT", decimal_string(cfg.k8s_service_port as u64).as_str()),
    ];
    assert(r.deep_view() =~~= endpoint_env_view(cfg.deep_view()));
    r
}

/// The environment of the agent.
pub open spec fn agent_env_view(cfg: EffectiveConfigView) -> Seq<EnvVarView> {
    endpoint_env_view(cfg) + seq![
        env_config_view("CILIUM_CLUSTERMESH_CONFIG"@, "clustermesh-config"@, CONFIG_MAP@),
        env_view("GOMEMLIMIT"@, "1GiB"@),
    ]
}

/// The environment of the agent. Without the apiserver endpoint it cannot find
/// the apiserver before the Service network exists.
pub fn agent_env(cfg: &EffectiveConfig) -> (r: Vec<EnvVar>)
    ensures
        r.deep_view() == agent_env_view(cfg.deep_view()),
{
    let mut r = endpoint_env(cfg);
    r.push(env_config("CILIUM_CLUSTERMESH_CONFIG", "clustermesh-config", CONFIG_MAP));
    r.push(env("GOMEMLIMIT", "1GiB"));
    assert(r.deep_view() =~= agent_env_view(cfg.deep_view()));
    r
}

/// The mounts of the agent. A standalone Envoy reaches xDS through its socket
/// directory, so the agent has to serve it from the same host path.
pub open spec fn agent_mounts_view(cfg: EffectiveConfigView) -> Seq<VolumeMountView> {
    let always = seq![
        mount_ro_view("cilium-config-path"@, "/tmp/cilium/config-map"@),
        mount_view("cilium-run"@, "/var/run/cilium"@),
        mount_bidirectional_view("bpf-maps"@, "/sys/fs/bpf"@),
        mount_view("etc-cni-netd"@, "/host/etc/cni/net.d"@),
        mount_view("cni-path"@, "/host/opt/cni/bin"@),
        mount_ro_view("lib-modules"@, "/lib/modules"@),
        mount_view("xtables-lock"@, "/run/xtables.lock"@),
        mount_view("host-proc-sys-net"@, "/host/proc/sys/net"@),
        mount_view("host-proc-sys-kernel"@, "/host/proc/sys/kernel"@),
        mount_view("tmp"@, "/tmp"@),
    ];
    if cfg.envoy {
        always.push(agent_socket_mount_view())
    } else {
        always
    }
}

/// The mounts of the agent. A standalone Envoy reaches xDS through its socket
/// directory, so the agent has to serve it from the same host path.
pub fn agent_mounts(cfg: &EffectiveConfig) -> (r: Vec<VolumeMount>)
    ensures
        r.deep_view() == agent_mounts_view(cfg.deep_view()),
{
    let mut r = vec![
        mount_ro("cilium-config-path", "/tmp/cilium/config-map"),
        mount("cilium-run", "/var/run/cilium"),
        mount_bidirectional("bpf-maps", "/sys/fs/bpf"),
        mount("etc-cni-netd", "/host/etc/cni/net.d"),
        mount("cni-path", "/host/opt/cni/bin"),
        mount_ro("lib-modules", "/lib/modules"),
        mount("xtables-lock", "/run/xtables.lock"),
        mount("host-proc-sys-net", "/host/proc/sys/net"),
        mount("host-proc-sys-kernel", "/host/proc/sys/kernel"),
        mount("tmp", "/tmp"),
    ];
    if cfg.envoy {
        r.push(agent_socket_mount());
    }
    assert(r.deep_view() =~~= agent_mounts_view(cfg.deep_view()));
    r
}

/// A cold agent compiles BPF and initialises maps; allow 2 minutes (24 x 5s)
/// before liveness is even consulted.
pub open spec fn startup_probe_view() -> ProbeView {
    ProbeView {
        failure_threshold: Some(24),
        period_seconds: Some(5),
        initial_delay_seconds: Some(5),
        ..health_probe_view(AGENT_HEALTH_PORT, "/healthz"@)
    }
}

/// A cold agent compiles BPF and initialises maps; allow 2 minutes (24 x 5s)
/// before liveness is even consulted.
pub fn startup_probe() -> (r: Probe)
    ensures
        r.deep_view() == startup_probe_view(),
{
    let r = Probe {
        failure_threshold: Some(24),
        period_seconds: Some(5),
        initial_delay_seconds: Some(5),
        ..health_probe(AGENT_HEALTH_PORT, "/healthz")
    };
    assert(r.deep_view() =~~= startup_probe_view());
    r
}

/// Restart an agent that stops answering.
pub open spec fn liveness_probe_view() -> ProbeView {
    ProbeView {
        period_seconds: Some(30),
        timeout_seconds: Some(5),
        failure_threshold: Some(10),
        ..health_probe_view(AGENT_HEALTH_PORT, "/healthz"@)
    }
}

/// Restart an agent that stops answering.
pub fn liveness_probe() -> (r: Probe)
    ensures
        r.deep_view() == liveness_probe_view(),
{
    let r = Probe {
        period_seconds: Some(30),
        timeout_seconds: Some(5),
        failure_threshold: Some(10),
        ..health_probe(AGENT_HEALTH_PORT, "/healthz")
    };
    assert(r.deep_view() =~~= liveness_probe_view());
    r
}

/// Count an agent as ready while it answers.
pub open spec fn readiness_probe_view() -> ProbeView {
    ProbeView {
        period_seconds: Some(30),
        timeout_seconds: Some(5),
        failure_threshold: Some(3),
        ..health_probe_view(AGENT_HEALTH_PORT, "/healthz"@)
    }
}

/// Count an agent as ready while it answers.
pub fn readiness_probe() -> (r: Probe)
    ensures
        r.deep_view() == readiness_probe_view(),
{
    let r = Probe {
        period_seconds: Some(30),
        timeout_seconds: Some(5),
        failure_threshold: Some(3),
        ..health_probe(AGENT_HEALTH_PORT, "/healthz")
    };
    assert(r.deep_view() =~~= readiness_probe_view());
    r
}

/// The long-running agent.
pub open spec fn agent_container_view(cfg: EffectiveConfigView) -> ContainerView {
    ContainerView {
        name: "cilium-agent"@,
        image: Some(cfg.agent_image()),
        image_pull_policy: Some("IfNotPresent"@),
        command: Some(seq!["cilium-agent"@]),
        args: Some(seq!["--config-dir=/tmp/cilium/config-map"@]),
        env: Some(agent_env_view(cfg)),
        startup_probe: Some(startup_probe_view()),
        liveness_probe: Some(liveness_probe_view()),
        readiness_probe: Some(readiness_probe_view()),
        security_context: Some(caps_view(agent_caps_view())),
        termination_message_policy: Some("FallbackToLogsOnError"@),
        volume_mounts: Some(agent_mounts_view(cfg)),
        ..ContainerView::unset()
    }
}

/// The long-running agent.
pub fn agent_container(cfg: &EffectiveConfig) -> (r: Container)
    ensures
        r.deep_view() == agent_container_view(cfg.deep_view()),
{
    let r = Container {
        name: "cilium-agent".to_string(),
        image: Some(cfg.agent_image()),
        image_pull_policy: Some("IfNotPresent".to_string()),
        command: Some(vec!["cilium-agent".to_string()]),
        args: Some(vec!["--config-dir=/tmp/cilium/config-map".to_string()]),
        env: Some(agent_env(cfg)),
        startup_probe: Some(startup_probe()),
        liveness_probe: Some(liveness_probe()),
        readiness_probe: Some(readiness_probe()),
        security_context: Some(caps(agent_caps())),
        termination_message_policy: Some("FallbackToLogsOnError".to_string()),
        volume_mounts: Some(agent_mounts(cfg)),
        ..Container::default()
    };
    assert(r.deep_view() =~= agent_container_view(cfg.deep_view()));
    r
}

/// Reconciles per-node config overrides (CiliumNodeConfig) into the config dir
/// the agent reads.
pub open spec fn config_container_view(cfg: EffectiveConfigView) -> ContainerView {
    ContainerView {
        name: "config"@,
        image: Some(cfg.agent_image()),
        image_pull_policy: Some("IfNotPresent"@),
        command: Some(seq!["cilium-dbg"@, "build-config"@]),
        env: Some(endpoint_env_view(cfg)),
        volume_mounts: Some(seq![mount_view("tmp"@, "/tmp"@)]),
        security_context: Some(caps_no_selinux_view(seq!["NET_ADMIN"@])),
        termination_message_policy: Some("FallbackToLogsOnError"@),
        ..ContainerView::unset()
    }
}

/// Reconciles per-node config overrides (CiliumNodeConfig) into the config dir
/// the agent reads.
pub fn config_container(cfg: &EffectiveConfig) -> (r: Container)
    ensures
        r.deep_view() == config_container_view(cfg.deep_view()),
{
    let r = Container {
        name: "config".to_string(),
        image: Some(cfg.agent_image()),
        image_pull_policy: Some("IfNotPresent".to_string()),
        command: Some(vec!["cilium-dbg".to_string(), "build-config".to_string()]),
        env: Some(endpoint_env(cfg)),
        volume_mounts: Some(vec![mount("tmp", "/tmp")]),
        security_context: Some(caps_no_selinux(vec!["NET_ADMIN".to_string()])),
        termination_message_policy: Some("FallbackToLogsOnError".to_string()),
        ..Container::default()
    };
    assert(r.deep_view() =~~= config_container_view(cfg.deep_view()));
    r
}

/// cgroupv2 has to be mounted in the *host's* namespaces, hence nsenter into
/// PID 1 — the container's own mount namespace is not where the kubelet and the
/// agent will look for it.
pub open spec fn mount_cgroup_container_view(cfg: EffectiveConfigView) -> ContainerView {
    ContainerView {
        name: "mount-cgroup"@,
        image: Some(cfg.agent_image()),
        image_pull_policy: Some("IfNotPresent"@),
        env: Some(
            seq![env_view("CGROUP_ROOT"@, "/run/cilium/cgroupv2"@), env_view("BIN_PATH"@, "/opt/cni/bin"@)],
        ),
        command: Some(seq!["sh"@, "-ec"@]),
        args: Some(seq![MOUNT_CGROUP@]),
        volume_mounts: Some(seq![mount_view("hostproc"@, "/hostproc"@), mount_view("cni-path"@, "/hostbin"@)]),
        security_context: Some(caps_view(nsenter_caps_view())),
        termination_message_policy: Some("FallbackToLogsOnError"@),
        ..ContainerView::unset()
    }
}

/// cgroupv2 has to be mounted in the *host's* namespaces, hence nsenter into
/// PID 1 — the container's own mount namespace is not where the kubelet and the
/// agent will look for it.
pub fn mount_cgroup_container(cfg: &EffectiveConfig) -> (r: Container)
    ensures
        r.deep_view() == mount_cgroup_container_view(cfg.deep_view()),
{
    let r = Container {
        name: "mount-cgroup".to_string(),
        image: Some(cfg.agent_image()),
        image_pull_policy: Some("IfNotPresent".to_string()),
        env: Some(
            vec![env("CGROUP_ROOT", "/run/cilium/cgroupv2"), env("BIN_PATH", "/opt/cni/bin")],
        ),
        command: Some(vec!["sh".to_string(), "-ec".to_string()]),
        args: Some(vec![MOUNT_CGROUP.to_string()]),
        volume_mounts: Some(vec![mount("hostproc", "/hostproc"), mount("cni-path", "/hostbin")]),
        security_context: Some(caps(nsenter_caps())),
        termination_message_policy: Some("FallbackToLogsOnError".to_string()),
        ..Container::default()
    };
    assert(r.deep_view() =~~= mount_cgroup_container_view(cfg.deep_view()));
    r
}

/// Overwrites sysctls of the host, from its mount namespace.
pub open spec fn sysctl_container_view(cfg: EffectiveConfigView) -> ContainerView {
    ContainerView {
        name: "apply-sysctl-overwrites"@,
        image: Some(cfg.agent_image()),
        image_pull_policy: Some("IfNotPresent"@),
        env: Some(seq![env_view("BIN_PATH"@, "/opt/cni/bin"@)]),
        command: Some(seq!["sh"@, "-ec"@]),
        args: Some(seq![APPLY_SYSCTL@]),
        volume_mounts: Some(seq![mount_view("hostproc"@, "/hostproc"@), mount_view("cni-path"@, "/hostbin"@)]),
        security_context: Some(caps_view(nsenter_caps_view())),
        termination_message_policy: Some("FallbackToLogsOnError"@),
        ..ContainerView::unset()
    }
}

/// Overwrites sysctls of the host, from its mount namespace.
pub fn sysctl_container(cfg: &EffectiveConfig) -> (r: Container)
    ensures
        r.deep_view() == sysctl_container_view(cfg.deep_view()),
{
    let r = Container {
        name: "apply-sysctl-overwrites".to_string(),
        image: Some(cfg.agent_image()),
        image_pull_policy: Some("IfNotPresent".to_string()),
        env: Some(vec![env("BIN_PATH", "/opt/cni/bin")]),
        command: Some(vec!["sh".to_string(), "-ec".to_string()]),
        args: Some(vec![APPLY_SYSCTL.to_string()]),
        volume_mounts: Some(vec![mount("hostproc", "/hostproc"), mount("cni-path", "/hostbin")]),
        security_context: Some(caps(nsenter_caps())),
        termination_message_policy: Some("FallbackToLogsOnError".to_string()),
        ..Container::default()
    };
    assert(r.deep_view() =~~= sysctl_container_view(cfg.deep_view()));
    r
}

/// Mounts bpffs, which is the one thing that takes full privilege.
pub open spec fn mount_bpf_container_view(cfg: EffectiveConfigView) -> ContainerView {
    ContainerView {
        name: "mount-bpf-fs"@,
        image: Some(cfg.agent_image()),
        image_pull_policy: Some("IfNotPresent"@),
        command: Some(seq!["/bin/bash"@, "-c"@, "--"@]),
        args: Some(seq![MOUNT_BPF@]),
        volume_mounts: Some(seq![mount_bidirectional_view("bpf-maps"@, "/sys/fs/bpf"@)]),
        security_context: Some(privileged_view()),
        termination_message_policy: Some("FallbackToLogsOnError"@),
        ..ContainerView::unset()
    }
}

/// Mounts bpffs, which is the one thing that takes full privilege.
pub fn mount_bpf_container(cfg: &EffectiveConfig) -> (r: Container)
    ensures
        r.deep_view() == mount_bpf_container_view(cfg.deep_view()),
{
    let r = Container {
        name: "mount-bpf-fs".to_string(),
        image: Some(cfg.agent_image()),
        image_pull_policy: Some("IfNotPresent".to_string()),
        command: Some(vec!["/bin/bash".to_string(), "-c".to_string(), "--".to_string()]),
        args: Some(vec![MOUNT_BPF.to_string()]),
        volume_mounts: Some(vec![mount_bidirectional("bpf-maps", "/sys/fs/bpf")]),
        security_context: Some(privileged()),
        termination_message_policy: Some("FallbackToLogsOnError".to_string()),
        ..Container::default()
    };
    assert(r.deep_view() =~~= mount_bpf_container_view(cfg.deep_view()));
    r
}

/// No-op unless the escape-hatch config keys are set; when they are, it wipes
/// BPF state so a broken datapath can be recovered by config alone.
pub open spec fn clean_state_container_view(cfg: EffectiveConfigView) -> ContainerView {
    ContainerView {
        name: "clean-cilium-state"@,
        image: Some(cfg.agent_image()),
        image_pull_policy: Some("IfNotPresent"@),
        command: Some(seq!["/init-container.sh"@]),
        env: Some(
            seq![
                env_config_view("CILIUM_ALL_STATE"@, "clean-cilium-state"@, CONFIG_MAP@),
                env_config_view("CILIUM_BPF_STATE"@, "clean-cilium-bpf-state"@, CONFIG_MAP@),
            ],
        ),
        volume_mounts: Some(
            seq![
                mount_bidirectional_view("bpf-maps"@, "/sys/fs/bpf"@),
                mount_view("cilium-cgroup"@, "/run/cilium/cgroupv2"@),
                mount_view("cilium-run"@, "/var/run/cilium"@),
            ],
        ),
        security_context: Some(
            caps_view(
                seq![
                    "NET_ADMIN"@,
                    "SYS_MODULE"@,
                    "SYS_ADMIN"@,
                    "SYS_RESOURCE"@,
                ],
            ),
        ),
        termination_message_policy: Some("FallbackToLogsOnError"@),
        ..ContainerView::unset()
    }
}

/// No-op unless the escape-hatch config keys are set; when they are, it wipes
/// BPF state so a broken datapath can be recovered by config alone.
pub fn clean_state_container(cfg: &EffectiveConfig) -> (r: Container)
    ensures
        r.deep_view() == clean_state_container_view(cfg.deep_view()),
{
    let r = Container {
        name: "clean-cilium-state".to_string(),
        image: Some(cfg.agent_image()),
        image_pull_policy: Some("IfNotPresent".to_string()),
        command: Some(vec!["/init-container.sh".to_string()]),
        env: Some(
            vec![
                env_config("CILIUM_ALL_STATE", "clean-cilium-state", CONFIG_MAP),
                env_config("CILIUM_BPF_STATE", "clean-cilium-bpf-state", CONFIG_MAP),
            ],
        ),
        volume_mounts: Some(
            vec![
                mount_bidirectional("bpf-maps", "/sys/fs/bpf"),
                mount("cilium-cgroup", "/run/cilium/cgroupv2"),
                mount("cilium-run", "/var/run/cilium"),
            ],
        ),
        security_context: Some(
            caps(
                vec![
                    "NET_ADMIN".to_string(),
                    "SYS_MODULE".to_string(),
                    "SYS_ADMIN".to_string(),
                    "SYS_RESOURCE".to_string(),
                ],
            ),
        ),
        termination_message_policy: Some("FallbackToLogsOnError".to_string()),
        ..Container::default()
    };
    assert(r.deep_view() =~~= clean_state_container_view(cfg.deep_view()));
    r
}

/// Installs the CNI binaries on the host.
pub open spec fn install_cni_container_view(cfg: EffectiveConfigView) -> ContainerView {
    ContainerView {
        name: "install-cni-binaries"@,
        image: Some(cfg.agent_image()),
        image_pull_policy: Some("IfNotPresent"@),
        command: Some(seq!["/install-plugin.sh"@]),
        volume_mounts: Some(seq![mount_view("cni-path"@, "/host/opt/cni/bin"@)]),
        security_context: Some(selinux_only_view()),
        termination_message_policy: Some("FallbackToLogsOnError"@),
        ..ContainerView::unset()
    }
}

/// Installs the CNI binaries on the host.
pub fn install_cni_container(cfg: &EffectiveConfig) -> (r: Container)
    ensures
        r.deep_view() == install_cni_container_view(cfg.deep_view()),
{
    let r = Container {
        name: "install-cni-binaries".to_string(),
        image: Some(cfg.agent_image()),
        image_pull_policy: Some("IfNotPresent".to_string()),
        command: Some(vec!["/install-plugin.sh".to_string()]),
        volume_mounts: Some(vec![mount("cni-path", "/host/opt/cni/bin")]),
        security_context: Some(selinux_only()),
        termination_message_policy: Some("FallbackToLogsOnError".to_string()),
        ..Container::default()
    };
    assert(r.deep_view() =~~= install_cni_container_view(cfg.deep_view()));
    r
}

/// The chain that prepares the host, in order.
pub open spec fn init_containers_view(cfg: EffectiveConfigView) -> Seq<ContainerView> {
    seq![
        config_container_view(cfg),
        mount_cgroup_container_view(cfg),
        sysctl_container_view(cfg),
        mount_bpf_container_view(cfg),
        clean_state_container_view(cfg),
        install_cni_container_view(cfg),
    ]
}

/// The chain that prepares the host, in order.
pub fn init_containers(cfg: &EffectiveConfig) -> (r: Vec<Container>)
    ensures
        r.deep_view() == init_containers_view(cfg.deep_view()),
{
    let r = vec![
        config_container(cfg),
        mount_cgroup_container(cfg),
        sysctl_container(cfg),
        mount_bpf_container(cfg),
        clean_state_container(cfg),
        install_cni_container(cfg),
    ];
    assert(r.deep_view() =~= init_containers_view(cfg.deep_view()));
    r
}

/// The volumes of the pod.
pub open spec fn volumes_view(cfg: EffectiveConfigView) -> Seq<VolumeView> {
    let always = seq![
        empty_dir_view("tmp"@),
        host_path_view("cilium-run"@, "/var/run/cilium"@, "DirectoryOrCreate"@),
        host_path_view("bpf-maps"@, "/sys/fs/bpf"@, "DirectoryOrCreate"@),
        host_path_view("hostproc"@, "/proc"@, "Directory"@),
        host_path_view("cilium-cgroup"@, "/run/cilium/cgroupv2"@, "DirectoryOrCreate"@),
        host_path_view("cni-path"@, "/opt/cni/bin"@, "DirectoryOrCreate"@),
        host_path_view("etc-cni-netd"@, "/etc/cni/net.d"@, "DirectoryOrCreate"@),
        host_path_view("lib-modules"@, "/lib/modules"@, "Directory"@),
        host_path_view("xtables-lock"@, "/run/xtables.lock"@, "FileOrCreate"@),
        host_path_view("host-proc-sys-net"@, "/proc/sys/net"@, "Directory"@),
        host_path_view("host-proc-sys-kernel"@, "/proc/sys/kernel"@, "Directory"@),
        config_map_volume_view("cilium-config-path"@, CONFIG_MAP@),
    ];
    if cfg.envoy {
        always.push(agent_socket_volume_view())
    } else {
        always
    }
}

/// The volumes of the pod.
pub fn volumes(cfg: &EffectiveConfig) -> (r: Vec<Volume>)
    ensures
        r.deep_view() == volumes_view(cfg.deep_view()),
{
    let mut r = vec![
        empty_dir("tmp"),
        host_path("cilium-run", "/var/run/cilium", "DirectoryOrCreate"),
        host_path("bpf-maps", "/sys/fs/bpf", "DirectoryOrCreate"),
        host_path("hostproc", "/proc", "Directory"),
        host_path("cilium-cgroup", "/run/cilium/cgroupv2", "DirectoryOrCreate"),
        host_path("cni-path", "/opt/cni/bin", "DirectoryOrCreate"),
        host_path("etc-cni-netd", "/etc/cni/net.d", "DirectoryOrCreate"),
        host_path("lib-modules", "/lib/modules", "Directory"),
        host_path("xtables-lock", "/run/xtables.lock", "FileOrCreate"),
        host_path("host-proc-sys-net", "/proc/sys/net", "Directory"),
        host_path("host-proc-sys-kernel", "/proc/sys/kernel", "Directory"),
        config_map_volume("cilium-config-path", CONFIG_MAP),
    ];
    if cfg.envoy {
        r.push(agent_socket_volume());
    }
    assert(r.deep_view() =~~= volumes_view(cfg.deep_view()));
    r
}

/// The pod.
pub open spec fn pod_spec_view(cfg: EffectiveConfigView) -> PodSpecView {
    PodSpecView {
        service_account_name: Some(AGENT_SA@),
        host_network: Some(true),
        host_pid: Some(true),
        dns_policy: Some("ClusterFirstWithHostNet"@),
        priority_class_name: Some("system-node-critical"@),
        restart_policy: Some("Always"@),
        termination_grace_period_seconds: Some(1),
        tolerations: Some(tolerate_all_view()),
        security_context: Some(unconfined_pod_security_view(false)),
        init_containers: Some(init_containers_view(cfg)),
        containers: seq![agent_container_view(cfg)],
        volumes: Some(volumes_view(cfg)),
        ..PodSpecView::unset()
    }
}

/// The pod. Host network and PID: the agent programs the host datapath and
/// enters PID 1's mount/cgroup namespaces from its init containers, which fail
/// with EPERM unless the pod runs unconfined.
pub fn pod_spec(cfg: &EffectiveConfig) -> (r: PodSpec)
    ensures
        r.deep_view() == pod_spec_view(cfg.deep_view()),
{
    let r = PodSpec {
        service_account_name: Some(AGENT_SA.to_string()),
        host_network: Some(true),
        host_pid: Some(true),
        dns_policy: Some("ClusterFirstWithHostNet".to_string()),
        priority_class_name: Some("system-node-critical".to_string()),
        restart_policy: Some("Always".to_string()),
        termination_grace_period_seconds: Some(1),
        tolerations: Some(tolerate_all()),
        security_context: Some(unconfined_pod_security(false)),
        init_containers: Some(init_containers(cfg)),
        containers: vec![agent_container(cfg)],
        volumes: Some(volumes(cfg)),
        ..PodSpec::default()
    };
    assert(r.deep_view() =~~= pod_spec_view(cfg.deep_view()));
    r
}

/// The label that selects its pods.
pub open spec fn selector_view() -> LabelSelectorView {
    LabelSelectorView { match_labels: Some(Map::empty().insert(APP_LABEL_KEY@, APP_LABEL_VALUE@)) }
}

/// The label that selects its pods.
pub fn selector() -> (r: LabelSelector)
    ensures
        r.deep_view() == selector_view(),
{
    let r = LabelSelector { match_labels: Some(label(APP_LABEL_KEY, APP_LABEL_VALUE)) };
    assert(r.deep_view() =~~= selector_view());
    r
}

/// Two nodes at a time: an upgrade should not take a large cluster all
/// afternoon, but the blast radius stays bounded.
pub open spec fn update_strategy_view() -> DaemonSetUpdateStrategyView {
    DaemonSetUpdateStrategyView {
        type_: Some("RollingUpdate"@),
        rolling_update: Some(
            RollingUpdateDaemonSetView { max_unavailable: Some(IntOrString::Int(2)) },
        ),
    }
}

/// Two nodes at a time: an upgrade should not take a large cluster all
/// afternoon, but the blast radius stays bounded.
pub fn update_strategy() -> (r: DaemonSetUpdateStrategy)
    ensures
        r.deep_view() == update_strategy_view(),
{
    let r = DaemonSetUpdateStrategy {
        type_: Some("RollingUpdate".to_string()),
        rolling_update: Some(
            RollingUpdateDaemonSet { max_unavailable: Some(IntOrString::Int(2)) },
        ),
    };
    assert(r.deep_view() =~~= update_strategy_view());
    r
}

/// The DaemonSet.
pub open spec fn daemon_set_view(cfg: EffectiveConfigView) -> DaemonSetView {
    DaemonSetView {
        metadata: object_meta_view(cfg),
        spec: Some(
            DaemonSetSpecView {
                selector: selector_view(),
                update_strategy: Some(update_strategy_view()),
                template: PodTemplateSpecView {
                    metadata: Some(
                        ObjectMetaView { labels: Some(pod_labels_view(cfg)), ..ObjectMetaView::unset() },
                    ),
                    spec: Some(pod_spec_view(cfg)),
                },
            },
        ),
    }
}

/// The DaemonSet.
pub fn daemon_set(cfg: &EffectiveConfig) -> (r: DaemonSet)
    ensures
        r.deep_view() == daemon_set_view(cfg.deep_view()),
{
    let r = DaemonSet {
        metadata: object_meta(cfg),
        spec: Some(
            DaemonSetSpec {
                selector: selector(),
                update_strategy: Some(update_strategy()),
                template: PodTemplateSpec {
                    metadata: Some(
                        ObjectMeta { labels: Some(pod_labels(cfg)), ..ObjectMeta::default() },
                    ),
                    spec: Some(pod_spec(cfg)),
                },
            },
        ),
    };
    assert(r.deep_view() =~= daemon_set_view(cfg.deep_view()));
    r
}

/// The agent, ready to apply.
pub open spec fn render_view(cfg: EffectiveConfigView) -> RenderedView {
    typed_view(ObjectView::DaemonSet(daemon_set_view(cfg)))
}

/// The agent, ready to apply.
pub fn render(cfg: &EffectiveConfig) -> (r: Rendered)
    ensures
        r.deep_view() == render_view(cfg.deep_view()),
{
    let r = typed(Object::DaemonSet(daemon_set(cfg)));
    assert(r.deep_view() =~= render_view(cfg.deep_view()));
    r
}

} // verus!
