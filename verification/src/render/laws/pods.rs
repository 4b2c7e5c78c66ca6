//! What runs in the pods: which programs, as whom, and on which part of the host.

use vstd::prelude::*;

use crate::k8s::pod::{
    AppArmorProfileView, CapabilitiesView, ConfigMapKeySelectorView, ContainerView,
    HTTPGetActionView, HostPathVolumeSourceView, IntOrString, NodeSelectorView,
    ObjectFieldSelectorView, PodAffinityTermView, PodSecurityContextView, PodSpecView, ProbeView,
    SELinuxOptionsView, SeccompProfileView, SecurityContextView, VolumeMountView,
};
use crate::k8s::workload::{
    DaemonSetSpecView, DaemonSetUpdateStrategyView, RollingUpdateDaemonSetView,
};
use crate::modes::EffectiveConfigView;
use crate::render::object::{BodyView, RenderedView};

verus! {

use crate::render::envoy::BOOTSTRAP;
use crate::render::metadata::overlaid;
use crate::render::object::typed_view;
use crate::render::{agent, envoy, operator};
use crate::text::decimal;

// --- reading a workload ----------------------------------------------------

/// The pod that a workload runs.
pub open spec fn pod_of(r: RenderedView) -> PodSpecView {
    match r.obj.body {
        BodyView::DaemonSet { spec: Some(spec) } => spec.template.spec->0,
        _ => r.obj.body->Deployment_spec->0.template.spec->0,
    }
}

/// A variable with this value.
pub open spec fn env_is(c: ContainerView, name: Seq<char>, value: Seq<char>) -> bool {
    c.env matches Some(vars) && exists|i: int|
        0 <= i < vars.len() && (#[trigger] vars[i]).name == name && vars[i].value == Some(value)
            && vars[i].value_from is None
}

/// A variable with the value of a field of the pod.
pub open spec fn env_is_field(c: ContainerView, name: Seq<char>, path: Seq<char>) -> bool {
    c.env matches Some(vars) && exists|i: int| #![trigger vars[i]]
        0 <= i < vars.len() && vars[i].name == name && vars[i].value is None
            && vars[i].value_from is Some && vars[i].value_from->0.config_map_key_ref is None
            && vars[i].value_from->0.field_ref == Some(
            (ObjectFieldSelectorView { api_version: Some("v1"@), field_path: path }),
        )
}

/// A variable with the value of a key of `cilium-config`, where that is set.
pub open spec fn env_is_setting(c: ContainerView, name: Seq<char>, key: Seq<char>) -> bool {
    c.env matches Some(vars) && exists|i: int| #![trigger vars[i]]
        0 <= i < vars.len() && vars[i].name == name && vars[i].value is None
            && vars[i].value_from is Some && vars[i].value_from->0.field_ref is None
            && vars[i].value_from->0.config_map_key_ref == Some(
            (ConfigMapKeySelectorView { name: "cilium-config"@, key, optional: Some(true) }),
        )
}

/// How a part of the host, or a ConfigMap, is mounted.
pub enum Access {
    ReadWrite,
    ReadOnly,
    /// What is mounted below shows up on the host too.
    Shared,
}

/// A mount with this access.
pub open spec fn accessed(m: VolumeMountView, access: Access) -> bool {
    match access {
        Access::ReadWrite => m.read_only is None && m.mount_propagation is None,
        Access::ReadOnly => m.read_only == Some(true) && m.mount_propagation is None,
        Access::Shared => m.read_only is None && m.mount_propagation == Some("Bidirectional"@),
    }
}

/// At a path of its own a container has a path of the host, which is of a kind.
pub open spec fn has_host_path(
    pod: PodSpecView,
    c: ContainerView,
    at: Seq<char>,
    host: Seq<char>,
    kind: Seq<char>,
    access: Access,
) -> bool {
    let mounts = c.volume_mounts->0;
    let volumes = pod.volumes->0;
    exists|m: int, v: int| #![trigger mounts[m], volumes[v]]
        0 <= m < mounts.len() && 0 <= v < volumes.len() && mounts[m].mount_path == at && accessed(
            mounts[m],
            access,
        ) && volumes[v].name == mounts[m].name && volumes[v].host_path == Some(
            (HostPathVolumeSourceView { path: host, type_: Some(kind) }),
        ) && volumes[v].config_map is None && volumes[v].empty_dir is None
}

/// At a path of its own a container has a ConfigMap.
pub open spec fn has_config_map(
    pod: PodSpecView,
    c: ContainerView,
    at: Seq<char>,
    name: Seq<char>,
    access: Access,
) -> bool {
    let mounts = c.volume_mounts->0;
    let volumes = pod.volumes->0;
    exists|m: int, v: int| #![trigger mounts[m], volumes[v]]
        0 <= m < mounts.len() && 0 <= v < volumes.len() && mounts[m].mount_path == at && accessed(
            mounts[m],
            access,
        ) && volumes[v].name == mounts[m].name && volumes[v].config_map is Some
            && volumes[v].config_map->0.name == name && volumes[v].host_path is None && volumes[v].empty_dir is None
}

/// At a path of its own a container has room to write, gone with the pod.
pub open spec fn has_scratch(pod: PodSpecView, c: ContainerView, at: Seq<char>) -> bool {
    let mounts = c.volume_mounts->0;
    let volumes = pod.volumes->0;
    exists|m: int, v: int| #![trigger mounts[m], volumes[v]]
        0 <= m < mounts.len() && 0 <= v < volumes.len() && mounts[m].mount_path == at && accessed(
            mounts[m],
            Access::ReadWrite,
        ) && volumes[v].name == mounts[m].name && volumes[v].empty_dir is Some
            && volumes[v].host_path is None && volumes[v].config_map is None
}

/// A container that runs a program out of an image.
pub open spec fn runs(
    c: ContainerView,
    name: Seq<char>,
    image: Seq<char>,
    command: Seq<Seq<char>>,
    args: Option<Seq<Seq<char>>>,
) -> bool {
    &&& c.name == name
    &&& c.image == Some(image)
    &&& c.command == Some(command)
    &&& c.args == args
    &&& c.image_pull_policy == Some("IfNotPresent"@)
    &&& c.termination_message_policy == Some("FallbackToLogsOnError"@)
}

/// Privileges: these capabilities in place of all others, and the SELinux type that
/// an enforcing host asks for, or not.
pub open spec fn capable(sc: Option<SecurityContextView>, add: Seq<Seq<char>>, selinux: bool) -> bool {
    &&& sc matches Some(sc) && {
        &&& sc.privileged is None
        &&& sc.capabilities == Some(
            (CapabilitiesView { add: Some(add), drop: Some(seq!["ALL"@]) }),
        )
        &&& labelled(sc, selinux)
    }
}

/// The SELinux type of a super-privileged container, or none.
pub open spec fn labelled(sc: SecurityContextView, selinux: bool) -> bool {
    if selinux {
        sc.se_linux_options == Some(
            (SELinuxOptionsView { level: Some("s0"@), type_: Some("spc_t"@) }),
        )
    } else {
        sc.se_linux_options is None
    }
}

/// A probe of `/healthz` over HTTP on loopback, at a pace and with a patience.
pub open spec fn probes(
    probe: Option<ProbeView>,
    port: i32,
    delay: Option<i32>,
    period: i32,
    timeout: Option<i32>,
    failures: i32,
) -> bool {
    probe matches Some(p) && {
        &&& p.http_get == Some(
            (HTTPGetActionView {
                host: Some("127.0.0.1"@),
                path: Some("/healthz"@),
                port: IntOrString::Int(port),
                scheme: Some("HTTP"@),
            }),
        )
        &&& p.initial_delay_seconds == delay
        &&& p.period_seconds == Some(period)
        &&& p.timeout_seconds == timeout
        &&& p.failure_threshold == Some(failures)
    }
}

/// On the host's network, on every node whatever its taints, and always restarted.
pub open spec fn hosted(pod: PodSpecView, priority: Seq<char>) -> bool {
    &&& pod.host_network == Some(true)
    &&& pod.restart_policy == Some("Always"@)
    &&& pod.priority_class_name == Some(priority)
    &&& pod.tolerations matches Some(t) && t.len() == 1 && t[0].operator == Some("Exists"@)
        && t[0].key is None && t[0].effect is None
}

/// Unconfined by AppArmor, and by seccomp too or not.
pub open spec fn unconfined(pod: PodSpecView, seccomp: bool) -> bool {
    pod.security_context == Some(
        (PodSecurityContextView {
            app_armor_profile: Some((AppArmorProfileView { type_: "Unconfined"@ })),
            seccomp_profile: if seccomp {
                Some((SeccompProfileView { type_: "Unconfined"@ }))
            } else {
                None
            },
        }),
    )
}

/// On, or not on, a node that has a pod with this label.
pub open spec fn by_node(
    terms: Option<Seq<PodAffinityTermView>>,
    key: Seq<char>,
    value: Seq<char>,
) -> bool {
    &&& terms is Some && terms->0.len() == 1
    &&& terms->0[0].topology_key == "kubernetes.io/hostname"@
    &&& terms->0[0].label_selector is Some
    &&& terms->0[0].label_selector->0.match_labels == Some(Map::empty().insert(key, value))
}

/// Off the nodes where a label has a value.
pub open spec fn stays_off(nodes: NodeSelectorView, key: Seq<char>, value: Seq<char>) -> bool {
    &&& nodes.node_selector_terms.len() == 1
    &&& nodes.node_selector_terms[0].match_expressions is Some
    &&& nodes.node_selector_terms[0].match_expressions->0.len() == 1
    &&& nodes.node_selector_terms[0].match_expressions->0[0].key == key
    &&& nodes.node_selector_terms[0].match_expressions->0[0].operator == "NotIn"@
    &&& nodes.node_selector_terms[0].match_expressions->0[0].values == Some(seq![value])
}

/// Replaces its pods two at a time.
pub open spec fn rolls_two_at_a_time(spec: DaemonSetSpecView) -> bool {
    spec.update_strategy == Some(
        (DaemonSetUpdateStrategyView {
            type_: Some("RollingUpdate"@),
            rolling_update: Some(
                (RollingUpdateDaemonSetView { max_unavailable: Some(IntOrString::Int(2)) }),
            ),
        }),
    )
}

// --- the agent -------------------------------------------------------------

/// The agent's pod: in the host's network and process namespaces, unconfined, as
/// the identity `cilium`, with six init containers before the agent.
pub proof fn law_the_agents_pod(cfg: EffectiveConfigView)
    ensures
        ({
            let pod = pod_of(agent::render_view(cfg));
            &&& pod == agent::pod_spec_view(cfg)
            &&& hosted(pod, "system-node-critical"@)
            &&& pod.host_pid == Some(true)
            &&& pod.service_account_name == Some("cilium"@)
            &&& pod.dns_policy == Some("ClusterFirstWithHostNet"@)
            &&& pod.termination_grace_period_seconds == Some(1i64)
            &&& unconfined(pod, true)
            &&& pod.affinity is None && pod.node_selector is None
            &&& pod.containers.len() == 1
            &&& pod.containers[0] == agent::agent_container_view(cfg)
            &&& pod.init_containers == Some(agent::init_containers_view(cfg))
            &&& pod.volumes->0.len() == if cfg.envoy {
                13
            } else {
                12int
            }
        }),
{
    reveal(typed_view);
}

/// The agent: what it runs, what it is told, what it may do and how it is probed.
pub proof fn law_the_agents_container(cfg: EffectiveConfigView)
    ensures
        ({
            let c = agent::agent_container_view(cfg);
            &&& runs(
                c,
                "cilium-agent"@,
                cfg.agent_image(),
                seq!["cilium-agent"@],
                Some(seq!["--config-dir=/tmp/cilium/config-map"@]),
            )
            &&& env_is_field(c, "K8S_NODE_NAME"@, "spec.nodeName"@)
            &&& env_is_field(c, "CILIUM_K8S_NAMESPACE"@, "metadata.namespace"@)
            &&& env_is(c, "KUBERNETES_SERVICE_HOST"@, cfg.k8s_service_host)
            &&& env_is(c, "KUBERNETES_SERVICE_PORT"@, decimal(cfg.k8s_service_port as nat))
            &&& env_is_setting(c, "CILIUM_CLUSTERMESH_CONFIG"@, "clustermesh-config"@)
            &&& env_is(c, "GOMEMLIMIT"@, "1GiB"@)
            &&& c.env->0.len() == 6
            &&& capable(
                c.security_context,
                seq![
                    "CHOWN"@,
                    "KILL"@,
                    "NET_ADMIN"@,
                    "NET_RAW"@,
                    "IPC_LOCK"@,
                    "SYS_MODULE"@,
                    "SYS_ADMIN"@,
                    "SYS_RESOURCE"@,
                    "DAC_OVERRIDE"@,
                    "FOWNER"@,
                    "SETGID"@,
                    "SETUID"@,
                    "SYSLOG"@,
                ],
                true,
            )
            &&& probes(c.startup_probe, 9879, Some(5i32), 5, None, 24)
            &&& probes(c.liveness_probe, 9879, None, 30, Some(5i32), 10)
            &&& probes(c.readiness_probe, 9879, None, 30, Some(5i32), 3)
            &&& c.ports is None
        }),
{
    let vars = agent::agent_container_view(cfg).env->0;
    assert(vars[0].name == "K8S_NODE_NAME"@ && vars[1].name == "CILIUM_K8S_NAMESPACE"@
        && vars[2].name == "KUBERNETES_SERVICE_HOST"@ && vars[3].name
        == "KUBERNETES_SERVICE_PORT"@ && vars[4].name == "CILIUM_CLUSTERMESH_CONFIG"@
        && vars[5].name == "GOMEMLIMIT"@);
}

/// What the agent has of the host, and at which path: bpffs so that its maps
/// survive it, the CNI's directories so that it can install itself, and its settings.
pub proof fn law_the_agents_part_of_the_host(cfg: EffectiveConfigView)
    ensures
        ({
            let pod = agent::pod_spec_view(cfg);
            let c = agent::agent_container_view(cfg);
            &&& has_config_map(
                pod,
                c,
                "/tmp/cilium/config-map"@,
                "cilium-config"@,
                Access::ReadOnly,
            )
            &&& has_host_path(
                pod,
                c,
                "/var/run/cilium"@,
                "/var/run/cilium"@,
                "DirectoryOrCreate"@,
                Access::ReadWrite,
            )
            &&& has_host_path(
                pod,
                c,
                "/sys/fs/bpf"@,
                "/sys/fs/bpf"@,
                "DirectoryOrCreate"@,
                Access::Shared,
            )
            &&& has_host_path(
                pod,
                c,
                "/host/etc/cni/net.d"@,
                "/etc/cni/net.d"@,
                "DirectoryOrCreate"@,
                Access::ReadWrite,
            )
            &&& has_host_path(
                pod,
                c,
                "/host/opt/cni/bin"@,
                "/opt/cni/bin"@,
                "DirectoryOrCreate"@,
                Access::ReadWrite,
            )
            &&& has_host_path(
                pod,
                c,
                "/lib/modules"@,
                "/lib/modules"@,
                "Directory"@,
                Access::ReadOnly,
            )
            &&& has_host_path(
                pod,
                c,
                "/run/xtables.lock"@,
                "/run/xtables.lock"@,
                "FileOrCreate"@,
                Access::ReadWrite,
            )
            &&& has_host_path(
                pod,
                c,
                "/host/proc/sys/net"@,
                "/proc/sys/net"@,
                "Directory"@,
                Access::ReadWrite,
            )
            &&& has_host_path(
                pod,
                c,
                "/host/proc/sys/kernel"@,
                "/proc/sys/kernel"@,
                "Directory"@,
                Access::ReadWrite,
            )
            &&& has_scratch(pod, c, "/tmp"@)
            &&& cfg.envoy ==> has_host_path(
                pod,
                c,
                "/var/run/cilium/envoy/sockets"@,
                "/var/run/cilium/envoy/sockets"@,
                "DirectoryOrCreate"@,
                Access::ReadWrite,
            )
            &&& c.volume_mounts->0.len() == if cfg.envoy {
                11
            } else {
                10int
            }
        }),
{
    let mounts = agent::agent_container_view(cfg).volume_mounts->0;
    let volumes = agent::pod_spec_view(cfg).volumes->0;
    assert(mounts[0].mount_path == "/tmp/cilium/config-map"@ && volumes[11].name == mounts[0].name);
    assert(mounts[1].mount_path == "/var/run/cilium"@ && volumes[1].name == mounts[1].name);
    assert(mounts[2].mount_path == "/sys/fs/bpf"@ && volumes[2].name == mounts[2].name);
    assert(mounts[3].mount_path == "/host/etc/cni/net.d"@ && volumes[6].name == mounts[3].name);
    assert(mounts[4].mount_path == "/host/opt/cni/bin"@ && volumes[5].name == mounts[4].name);
    assert(mounts[5].mount_path == "/lib/modules"@ && volumes[7].name == mounts[5].name);
    assert(mounts[6].mount_path == "/run/xtables.lock"@ && volumes[8].name == mounts[6].name);
    assert(mounts[7].mount_path == "/host/proc/sys/net"@ && volumes[9].name == mounts[7].name);
    assert(mounts[8].mount_path == "/host/proc/sys/kernel"@ && volumes[10].name == mounts[8].name);
    assert(mounts[9].mount_path == "/tmp"@ && volumes[0].name == mounts[9].name);
    if cfg.envoy {
        assert(mounts[10].mount_path == "/var/run/cilium/envoy/sockets"@ && volumes[12].name
            == mounts[10].name);
    }
}

/// The first init container builds the settings that the agent reads.
pub proof fn law_config_is_built_first(cfg: EffectiveConfigView)
    ensures
        ({
            let pod = agent::pod_spec_view(cfg);
            let c = agent::init_containers_view(cfg)[0];
            &&& agent::init_containers_view(cfg).len() == 6
            &&& runs(
                c,
                "config"@,
                cfg.agent_image(),
                seq!["cilium-dbg"@, "build-config"@],
                None,
            )
            &&& env_is_field(c, "K8S_NODE_NAME"@, "spec.nodeName"@)
            &&& env_is_field(c, "CILIUM_K8S_NAMESPACE"@, "metadata.namespace"@)
            &&& env_is(c, "KUBERNETES_SERVICE_HOST"@, cfg.k8s_service_host)
            &&& env_is(c, "KUBERNETES_SERVICE_PORT"@, decimal(cfg.k8s_service_port as nat))
            &&& c.env->0.len() == 4
            &&& has_scratch(pod, c, "/tmp"@)
            &&& c.volume_mounts->0.len() == 1
            &&& capable(c.security_context, seq!["NET_ADMIN"@], false)
            &&& c.startup_probe is None && c.liveness_probe is None && c.readiness_probe is None
        }),
{
    let c = agent::init_containers_view(cfg)[0];
    let mounts = c.volume_mounts->0;
    let volumes = agent::pod_spec_view(cfg).volumes->0;
    assert(mounts[0].mount_path == "/tmp"@ && volumes[0].name == mounts[0].name);
    let vars = c.env->0;
    assert(vars[0].name == "K8S_NODE_NAME"@);
    assert(vars[1].name == "CILIUM_K8S_NAMESPACE"@);
    assert(vars[2].name == "KUBERNETES_SERVICE_HOST"@);
    assert(vars[3].name == "KUBERNETES_SERVICE_PORT"@);
}

/// The second init container mounts cgroupv2 in the host's namespaces.
pub proof fn law_cgroupv2_is_mounted(cfg: EffectiveConfigView)
    ensures
        ({
            let pod = agent::pod_spec_view(cfg);
            let c = agent::init_containers_view(cfg)[1];
            &&& agent::init_containers_view(cfg).len() == 6
            &&& runs(
                c,
                "mount-cgroup"@,
                cfg.agent_image(),
                seq!["sh"@, "-ec"@],
                Some(
                    seq![
                        "cp /usr/bin/cilium-mount /hostbin/cilium-mount; nsenter --cgroup=/hostproc/1/ns/cgroup --mount=/hostproc/1/ns/mnt \"${BIN_PATH}/cilium-mount\" $CGROUP_ROOT; rm /hostbin/cilium-mount"@,
                    ],
                ),
            )
            &&& env_is(c, "CGROUP_ROOT"@, "/run/cilium/cgroupv2"@)
            &&& env_is(c, "BIN_PATH"@, "/opt/cni/bin"@)
            &&& c.env->0.len() == 2
            &&& has_host_path(
                pod,
                c,
                "/hostproc"@,
                "/proc"@,
                "Directory"@,
                Access::ReadWrite,
            )
            &&& has_host_path(
                pod,
                c,
                "/hostbin"@,
                "/opt/cni/bin"@,
                "DirectoryOrCreate"@,
                Access::ReadWrite,
            )
            &&& c.volume_mounts->0.len() == 2
            &&& capable(
                c.security_context,
                seq!["SYS_ADMIN"@, "SYS_CHROOT"@, "SYS_PTRACE"@],
                true,
            )
            &&& c.startup_probe is None && c.liveness_probe is None && c.readiness_probe is None
        }),
{
    let c = agent::init_containers_view(cfg)[1];
    let mounts = c.volume_mounts->0;
    let volumes = agent::pod_spec_view(cfg).volumes->0;
    assert(mounts[0].mount_path == "/hostproc"@ && volumes[3].name == mounts[0].name);
    assert(mounts[1].mount_path == "/hostbin"@ && volumes[5].name == mounts[1].name);
    let vars = c.env->0;
    assert(vars[0].name == "CGROUP_ROOT"@);
    assert(vars[1].name == "BIN_PATH"@);
}

/// The third init container mends the host's sysctls.
pub proof fn law_sysctls_are_mended(cfg: EffectiveConfigView)
    ensures
        ({
            let pod = agent::pod_spec_view(cfg);
            let c = agent::init_containers_view(cfg)[2];
            &&& agent::init_containers_view(cfg).len() == 6
            &&& runs(
                c,
                "apply-sysctl-overwrites"@,
                cfg.agent_image(),
                seq!["sh"@, "-ec"@],
                Some(
                    seq![
                        "cp /usr/bin/cilium-sysctlfix /hostbin/cilium-sysctlfix; nsenter --mount=/hostproc/1/ns/mnt \"${BIN_PATH}/cilium-sysctlfix\"; rm /hostbin/cilium-sysctlfix"@,
                    ],
                ),
            )
            &&& env_is(c, "BIN_PATH"@, "/opt/cni/bin"@)
            &&& c.env->0.len() == 1
            &&& has_host_path(
                pod,
                c,
                "/hostproc"@,
                "/proc"@,
                "Directory"@,
                Access::ReadWrite,
            )
            &&& has_host_path(
                pod,
                c,
                "/hostbin"@,
                "/opt/cni/bin"@,
                "DirectoryOrCreate"@,
                Access::ReadWrite,
            )
            &&& c.volume_mounts->0.len() == 2
            &&& capable(
                c.security_context,
                seq!["SYS_ADMIN"@, "SYS_CHROOT"@, "SYS_PTRACE"@],
                true,
            )
            &&& c.startup_probe is None && c.liveness_probe is None && c.readiness_probe is None
        }),
{
    let c = agent::init_containers_view(cfg)[2];
    let mounts = c.volume_mounts->0;
    let volumes = agent::pod_spec_view(cfg).volumes->0;
    assert(mounts[0].mount_path == "/hostproc"@ && volumes[3].name == mounts[0].name);
    assert(mounts[1].mount_path == "/hostbin"@ && volumes[5].name == mounts[1].name);
    let vars = c.env->0;
    assert(vars[0].name == "BIN_PATH"@);
}

/// The fourth init container mounts bpffs, fully privileged.
pub proof fn law_bpffs_is_mounted(cfg: EffectiveConfigView)
    ensures
        ({
            let pod = agent::pod_spec_view(cfg);
            let c = agent::init_containers_view(cfg)[3];
            &&& agent::init_containers_view(cfg).len() == 6
            &&& runs(
                c,
                "mount-bpf-fs"@,
                cfg.agent_image(),
                seq!["/bin/bash"@, "-c"@, "--"@],
                Some(
                    seq![
                        "mount | grep \"/sys/fs/bpf type bpf\" || mount -t bpf bpf /sys/fs/bpf"@,
                    ],
                ),
            )
            &&& c.env is None
            &&& has_host_path(
                pod,
                c,
                "/sys/fs/bpf"@,
                "/sys/fs/bpf"@,
                "DirectoryOrCreate"@,
                Access::Shared,
            )
            &&& c.volume_mounts->0.len() == 1
            &&& c.security_context is Some && c.security_context->0.privileged == Some(true)
            &&& c.security_context->0.capabilities is None
            &&& labelled(c.security_context->0, false)
            &&& c.startup_probe is None && c.liveness_probe is None && c.readiness_probe is None
        }),
{
    let c = agent::init_containers_view(cfg)[3];
    let mounts = c.volume_mounts->0;
    let volumes = agent::pod_spec_view(cfg).volumes->0;
    assert(mounts[0].mount_path == "/sys/fs/bpf"@ && volumes[2].name == mounts[0].name);
}

/// The fifth init container clears old state where the settings ask for it.
pub proof fn law_state_is_cleaned(cfg: EffectiveConfigView)
    ensures
        ({
            let pod = agent::pod_spec_view(cfg);
            let c = agent::init_containers_view(cfg)[4];
            &&& agent::init_containers_view(cfg).len() == 6
            &&& runs(
                c,
                "clean-cilium-state"@,
                cfg.agent_image(),
                seq!["/init-container.sh"@],
                None,
            )
            &&& env_is_setting(c, "CILIUM_ALL_STATE"@, "clean-cilium-state"@)
            &&& env_is_setting(c, "CILIUM_BPF_STATE"@, "clean-cilium-bpf-state"@)
            &&& c.env->0.len() == 2
            &&& has_host_path(
                pod,
                c,
                "/sys/fs/bpf"@,
                "/sys/fs/bpf"@,
                "DirectoryOrCreate"@,
                Access::Shared,
            )
            &&& has_host_path(
                pod,
                c,
                "/run/cilium/cgroupv2"@,
                "/run/cilium/cgroupv2"@,
                "DirectoryOrCreate"@,
                Access::ReadWrite,
            )
            &&& has_host_path(
                pod,
                c,
                "/var/run/cilium"@,
                "/var/run/cilium"@,
                "DirectoryOrCreate"@,
                Access::ReadWrite,
            )
            &&& c.volume_mounts->0.len() == 3
            &&& capable(
                c.security_context,
                seq!["NET_ADMIN"@, "SYS_MODULE"@, "SYS_ADMIN"@, "SYS_RESOURCE"@],
                true,
            )
            &&& c.startup_probe is None && c.liveness_probe is None && c.readiness_probe is None
        }),
{
    let c = agent::init_containers_view(cfg)[4];
    let mounts = c.volume_mounts->0;
    let volumes = agent::pod_spec_view(cfg).volumes->0;
    assert(mounts[0].mount_path == "/sys/fs/bpf"@ && volumes[2].name == mounts[0].name);
    assert(mounts[1].mount_path == "/run/cilium/cgroupv2"@ && volumes[4].name == mounts[1].name);
    assert(mounts[2].mount_path == "/var/run/cilium"@ && volumes[1].name == mounts[2].name);
    let vars = c.env->0;
    assert(vars[0].name == "CILIUM_ALL_STATE"@);
    assert(vars[1].name == "CILIUM_BPF_STATE"@);
}

/// The last init container puts the CNI plugin on the host.
pub proof fn law_the_cni_is_installed(cfg: EffectiveConfigView)
    ensures
        ({
            let pod = agent::pod_spec_view(cfg);
            let c = agent::init_containers_view(cfg)[5];
            &&& agent::init_containers_view(cfg).len() == 6
            &&& runs(
                c,
                "install-cni-binaries"@,
                cfg.agent_image(),
                seq!["/install-plugin.sh"@],
                None,
            )
            &&& c.env is None
            &&& has_host_path(
                pod,
                c,
                "/host/opt/cni/bin"@,
                "/opt/cni/bin"@,
                "DirectoryOrCreate"@,
                Access::ReadWrite,
            )
            &&& c.volume_mounts->0.len() == 1
            &&& c.security_context is Some && c.security_context->0.privileged is None
            &&& c.security_context->0.capabilities is None
            &&& labelled(c.security_context->0, true)
            &&& c.startup_probe is None && c.liveness_probe is None && c.readiness_probe is None
        }),
{
    let c = agent::init_containers_view(cfg)[5];
    let mounts = c.volume_mounts->0;
    let volumes = agent::pod_spec_view(cfg).volumes->0;
    assert(mounts[0].mount_path == "/host/opt/cni/bin"@ && volumes[5].name == mounts[0].name);
}

/// The agent's DaemonSet: it takes the pods labelled `k8s-app: cilium`, labels its
/// own so, and replaces two at a time.
pub proof fn law_the_agents_daemon_set(cfg: EffectiveConfigView)
    ensures
        ({
            let spec = agent::render_view(cfg).obj.body->DaemonSet_spec->0;
            let labels = spec.template.metadata->0.labels->0;
            &&& agent::render_view(cfg).obj.body is DaemonSet
            &&& spec.selector.match_labels == Some(Map::empty().insert("k8s-app"@, "cilium"@))
            &&& labels.contains_key("k8s-app"@) && labels["k8s-app"@] == "cilium"@
            &&& rolls_two_at_a_time(spec)
        }),
{
    reveal(typed_view);
}

// --- cilium-operator -------------------------------------------------------

/// The operator's pod: on the host's network, as its own identity, never two on
/// one node.
pub proof fn law_the_operators_pod(cfg: EffectiveConfigView)
    ensures
        ({
            let pod = pod_of(operator::render_view(cfg));
            &&& pod == operator::pod_spec_view(cfg)
            &&& hosted(pod, "system-cluster-critical"@)
            &&& pod.host_pid is None
            &&& pod.service_account_name == Some("cilium-operator"@)
            &&& pod.dns_policy == Some("ClusterFirstWithHostNet"@)
            &&& pod.security_context is None && pod.node_selector is None
            &&& pod.init_containers is None
            &&& pod.containers.len() == 1
            &&& pod.containers[0] == operator::container_view(cfg)
            &&& pod.affinity is Some
            &&& pod.affinity->0.node_affinity is None && pod.affinity->0.pod_affinity is None
            &&& pod.affinity->0.pod_anti_affinity is Some
            &&& by_node(
                pod.affinity->0.pod_anti_affinity->0.required_during_scheduling_ignored_during_execution,
                "io.cilium/app"@,
                "operator"@,
            )
        }),
{
    reveal(typed_view);
}

/// The operator: the generic one, with the same settings as the agent.
pub proof fn law_the_operators_container(cfg: EffectiveConfigView)
    ensures
        ({
            let pod = operator::pod_spec_view(cfg);
            let c = operator::container_view(cfg);
            &&& runs(
                c,
                "cilium-operator"@,
                cfg.operator_image(),
                seq!["cilium-operator-generic"@],
                Some(seq!["--config-dir=/tmp/cilium/config-map"@, "--debug=$(CILIUM_DEBUG)"@]),
            )
            &&& env_is_field(c, "K8S_NODE_NAME"@, "spec.nodeName"@)
            &&& env_is_field(c, "CILIUM_K8S_NAMESPACE"@, "metadata.namespace"@)
            &&& env_is(c, "KUBERNETES_SERVICE_HOST"@, cfg.k8s_service_host)
            &&& env_is(c, "KUBERNETES_SERVICE_PORT"@, decimal(cfg.k8s_service_port as nat))
            &&& env_is_setting(c, "CILIUM_DEBUG"@, "debug"@)
            &&& c.env->0.len() == 5
            &&& has_config_map(
                pod,
                c,
                "/tmp/cilium/config-map"@,
                "cilium-config"@,
                Access::ReadOnly,
            )
            &&& c.volume_mounts->0.len() == 1 && pod.volumes->0.len() == 1
            &&& c.security_context is None && c.ports is None && c.startup_probe is None
            &&& probes(c.liveness_probe, 9234, Some(60i32), 10, Some(3i32), 3)
            &&& probes(c.readiness_probe, 9234, Some(0i32), 5, Some(3i32), 5)
        }),
{
    let c = operator::container_view(cfg);
    let vars = c.env->0;
    let mounts = c.volume_mounts->0;
    let volumes = operator::pod_spec_view(cfg).volumes->0;
    assert(vars[0].name == "K8S_NODE_NAME"@ && vars[1].name == "CILIUM_K8S_NAMESPACE"@
        && vars[2].name == "KUBERNETES_SERVICE_HOST"@ && vars[3].name
        == "KUBERNETES_SERVICE_PORT"@ && vars[4].name == "CILIUM_DEBUG"@);
    assert(mounts[0].mount_path == "/tmp/cilium/config-map"@ && volumes[0].name == mounts[0].name);
}

/// The operator's Deployment: one replica, gone before the next one comes.
pub proof fn law_the_operators_deployment(cfg: EffectiveConfigView)
    ensures
        ({
            let spec = operator::render_view(cfg).obj.body->Deployment_spec->0;
            let labels = spec.template.metadata->0.labels->0;
            &&& operator::render_view(cfg).obj.body is Deployment
            &&& spec.replicas == Some(1i32)
            &&& spec.strategy matches Some(s) && s.type_ == Some("Recreate"@)
            &&& spec.selector.match_labels == Some(
                Map::empty().insert("io.cilium/app"@, "operator"@).insert(
                    "name"@,
                    "cilium-operator"@,
                ),
            )
            &&& labels.contains_key("io.cilium/app"@) && labels["io.cilium/app"@] == "operator"@
            &&& labels.contains_key("name"@) && labels["name"@] == "cilium-operator"@
        }),
{
    reveal(typed_view);
    crate::render::laws::workloads::law_selectors_match_their_pods(cfg);
    let wanted = operator::selector_view().match_labels->0;
    reveal_strlit("name");
    reveal_strlit("io.cilium/app");
    assert("name"@.len() == 4 && "io.cilium/app"@.len() == 13);
    assert(wanted.contains_key("io.cilium/app"@) && wanted.contains_key("name"@));
}

// --- Envoy -----------------------------------------------------------------

/// Envoy's objects are rendered exactly where it is asked for.
pub proof fn law_envoy_is_rendered_iff_asked_for(cfg: EffectiveConfigView)
    ensures
        !cfg.envoy ==> envoy::render_view(cfg).len() == 0,
        cfg.envoy ==> {
            &&& envoy::render_view(cfg).len() == 4
            &&& envoy::render_view(cfg)[0].obj.body is ServiceAccount
            &&& envoy::render_view(cfg)[1].obj.body == (BodyView::ConfigMap {
                data: Some(Map::empty().insert("bootstrap-config.json"@, BOOTSTRAP@)),
            })
            &&& envoy::render_view(cfg)[2].obj.body == (BodyView::DaemonSet {
                spec: envoy::daemon_set_view(cfg).spec,
            })
            &&& envoy::render_view(cfg)[3].obj.body == (BodyView::Service {
                spec: envoy::service_view(cfg).spec,
            })
        },
{
    reveal(typed_view);
}

/// Envoy's pod: only where an agent runs, never two on one node, and not where a
/// node opts out.
pub proof fn law_envoys_pod(cfg: EffectiveConfigView)
    ensures
        ({
            let pod = envoy::daemon_set_view(cfg).spec->0.template.spec->0;
            &&& pod == envoy::pod_spec_view(cfg)
            &&& hosted(pod, "system-node-critical"@)
            &&& pod.host_pid is None && pod.dns_policy is None && pod.init_containers is None
            &&& pod.service_account_name == Some("cilium-envoy"@)
            &&& pod.termination_grace_period_seconds == Some(1i64)
            &&& pod.node_selector == Some(Map::empty().insert("kubernetes.io/os"@, "linux"@))
            &&& unconfined(pod, false)
            &&& pod.containers.len() == 1
            &&& pod.containers[0] == envoy::container_view(cfg)
            &&& pod.affinity is Some
            &&& pod.affinity->0.node_affinity is Some
            &&& pod.affinity->0.node_affinity->0.required_during_scheduling_ignored_during_execution
                is Some
            &&& stays_off(
                pod.affinity->0.node_affinity->0.required_during_scheduling_ignored_during_execution->0,
                "cilium.io/no-schedule"@,
                "true"@,
            )
            &&& pod.affinity->0.pod_affinity is Some
            &&& by_node(
                pod.affinity->0.pod_affinity->0.required_during_scheduling_ignored_during_execution,
                "k8s-app"@,
                "cilium"@,
            )
            &&& pod.affinity->0.pod_anti_affinity is Some
            &&& by_node(
                pod.affinity->0.pod_anti_affinity->0.required_during_scheduling_ignored_during_execution,
                "k8s-app"@,
                "cilium-envoy"@,
            )
        }),
{
}

/// Envoy: its own image, the bootstrap that is rendered with it, the sockets that it
/// shares with the agent, and no more privileges than sockets and namespaces take.
pub proof fn law_envoys_container(cfg: EffectiveConfigView)
    ensures
        ({
            let pod = envoy::pod_spec_view(cfg);
            let c = envoy::container_view(cfg);
            &&& runs(
                c,
                "cilium-envoy"@,
                cfg.envoy_image,
                seq!["/usr/bin/cilium-envoy-starter"@],
                Some(
                    seq![
                        "--"@,
                        "-c /var/run/cilium/envoy/bootstrap-config.json"@,
                        "--base-id 0"@,
                        "--log-level info"@,
                    ],
                ),
            )
            &&& env_is_field(c, "K8S_NODE_NAME"@, "spec.nodeName"@)
            &&& env_is_field(c, "CILIUM_K8S_NAMESPACE"@, "metadata.namespace"@)
            &&& env_is(c, "KUBERNETES_SERVICE_HOST"@, cfg.k8s_service_host)
            &&& env_is(c, "KUBERNETES_SERVICE_PORT"@, decimal(cfg.k8s_service_port as nat))
            &&& c.env->0.len() == 4
            &&& capable(c.security_context, seq!["NET_ADMIN"@, "SYS_ADMIN"@], true)
            &&& probes(c.startup_probe, 9878, Some(5i32), 2, None, 105)
            &&& probes(c.liveness_probe, 9878, None, 30, Some(5i32), 10)
            &&& probes(c.readiness_probe, 9878, None, 30, Some(5i32), 3)
            &&& c.startup_probe->0.success_threshold == Some(1i32)
            &&& c.liveness_probe->0.success_threshold == Some(1i32)
            &&& c.readiness_probe->0.success_threshold == Some(1i32)
            &&& c.ports is Some && c.ports->0.len() == 1
            &&& c.ports->0[0].name == Some("envoy-metrics"@)
            &&& c.ports->0[0].container_port == 9964
            &&& c.ports->0[0].host_port == Some(9964i32)
            &&& c.ports->0[0].protocol == Some("TCP"@)
            &&& has_host_path(
                pod,
                c,
                "/var/run/cilium/envoy/sockets"@,
                "/var/run/cilium/envoy/sockets"@,
                "DirectoryOrCreate"@,
                Access::ReadWrite,
            )
            &&& has_host_path(
                pod,
                c,
                "/var/run/cilium/envoy/artifacts"@,
                "/var/run/cilium/envoy/artifacts"@,
                "DirectoryOrCreate"@,
                Access::ReadWrite,
            )
            &&& has_config_map(
                pod,
                c,
                "/var/run/cilium/envoy/"@,
                "cilium-envoy-config"@,
                Access::ReadWrite,
            )
            &&& has_host_path(
                pod,
                c,
                "/sys/fs/bpf"@,
                "/sys/fs/bpf"@,
                "DirectoryOrCreate"@,
                Access::Shared,
            )
            &&& c.volume_mounts->0.len() == 4 && pod.volumes->0.len() == 4
            &&& pod.volumes->0[2].config_map is Some
            &&& pod.volumes->0[2].config_map->0.default_mode == Some(256i32)
            &&& pod.volumes->0[2].config_map->0.items is Some
            &&& pod.volumes->0[2].config_map->0.items->0.len() == 1
            &&& pod.volumes->0[2].config_map->0.items->0[0].key == "bootstrap-config.json"@
            &&& pod.volumes->0[2].config_map->0.items->0[0].path == "bootstrap-config.json"@
        }),
{
    let c = envoy::container_view(cfg);
    let vars = c.env->0;
    let mounts = c.volume_mounts->0;
    let volumes = envoy::pod_spec_view(cfg).volumes->0;
    assert(vars[0].name == "K8S_NODE_NAME"@ && vars[1].name == "CILIUM_K8S_NAMESPACE"@
        && vars[2].name == "KUBERNETES_SERVICE_HOST"@ && vars[3].name
        == "KUBERNETES_SERVICE_PORT"@);
    assert(mounts[0].mount_path == "/var/run/cilium/envoy/sockets"@ && volumes[0].name
        == mounts[0].name);
    assert(mounts[1].mount_path == "/var/run/cilium/envoy/artifacts"@ && volumes[1].name
        == mounts[1].name);
    assert(mounts[2].mount_path == "/var/run/cilium/envoy/"@ && volumes[2].name == mounts[2].name);
    assert(mounts[3].mount_path == "/sys/fs/bpf"@ && volumes[3].name == mounts[3].name);
}

/// Envoy's DaemonSet and the Service in front of its metrics: both take the pods
/// labelled `k8s-app: cilium-envoy`, which its pods are.
pub proof fn law_envoys_daemon_set_and_service(cfg: EffectiveConfigView)
    ensures
        ({
            let spec = envoy::daemon_set_view(cfg).spec->0;
            let labels = spec.template.metadata->0.labels->0;
            &&& spec.selector.match_labels == Some(Map::empty().insert("k8s-app"@, "cilium-envoy"@))
            &&& labels.contains_key("k8s-app"@) && labels["k8s-app"@] == "cilium-envoy"@
            &&& labels.contains_key("name"@) && labels["name"@] == "cilium-envoy"@
            &&& rolls_two_at_a_time(spec)
        }),
        envoy::service_view(cfg).spec matches Some(service) && {
            &&& service.type_ == Some("ClusterIP"@) && service.cluster_ip == Some("None"@)
            &&& service.selector == Some(Map::empty().insert("k8s-app"@, "cilium-envoy"@))
            &&& service.ports is Some && service.ports->0.len() == 1
            &&& service.ports->0[0].name == Some("envoy-metrics"@)
            &&& service.ports->0[0].port == 9964
            &&& service.ports->0[0].target_port == Some(IntOrString::Int(9964))
            &&& service.ports->0[0].protocol == Some("TCP"@)
        },
{
    reveal_strlit("name");
    reveal_strlit("k8s-app");
    assert("name"@.len() == 4 && "k8s-app"@.len() == 7);
}

// --- labels ----------------------------------------------------------------

/// The labels that everything carries.
pub open spec fn common(cfg: EffectiveConfigView) -> Map<Seq<char>, Seq<char>> {
    Map::empty().insert("app.kubernetes.io/managed-by"@, "network-operator"@).insert(
        "app.kubernetes.io/part-of"@,
        "cilium"@,
    ).insert("network.storm.io/owner"@, cfg.network_name)
}

/// The labels of the workloads and of their pods: the common ones, and those that
/// they are selected by.
pub proof fn law_the_labels_of_the_workloads(cfg: EffectiveConfigView)
    ensures
        ({
            let agent_labels = common(cfg).insert("k8s-app"@, "cilium"@);
            let operator_labels = common(cfg).insert("io.cilium/app"@, "operator"@).insert(
                "name"@,
                "cilium-operator"@,
            );
            let envoy_labels = common(cfg).insert("k8s-app"@, "cilium-envoy"@).insert(
                "name"@,
                "cilium-envoy"@,
            );
            &&& agent::daemon_set_view(cfg).metadata.labels == Some(agent_labels)
            &&& agent::pod_labels_view(cfg) == agent_labels
            &&& operator::deployment_view(cfg).metadata.labels == Some(operator_labels)
            &&& operator::pod_labels_view(cfg) == operator_labels
            &&& envoy::daemon_set_view(cfg).metadata.labels == Some(envoy_labels)
            &&& envoy::service_view(cfg).metadata.labels == Some(envoy_labels)
            &&& envoy::pod_labels_view(cfg) == envoy_labels
        }),
{
    let one = seq![("k8s-app"@, "cilium"@)];
    assert(one.drop_last() =~= seq![] && one.last() == ("k8s-app"@, "cilium"@));
    let two = seq![("io.cilium/app"@, "operator"@), ("name"@, "cilium-operator"@)];
    assert(two.drop_last() =~= seq![("io.cilium/app"@, "operator"@)]);
    assert(two.drop_last().drop_last() =~= seq![]);
    assert(two.last() == ("name"@, "cilium-operator"@) && two.drop_last().last() == (
        "io.cilium/app"@,
        "operator"@,
    ));
    let three = seq![("k8s-app"@, "cilium-envoy"@), ("name"@, "cilium-envoy"@)];
    assert(three.drop_last() =~= seq![("k8s-app"@, "cilium-envoy"@)]);
    assert(three.drop_last().drop_last() =~= seq![]);
    assert(three.last() == ("name"@, "cilium-envoy"@) && three.drop_last().last() == (
        "k8s-app"@,
        "cilium-envoy"@,
    ));
    reveal_with_fuel(overlaid, 3);
    assert(overlaid(common(cfg), one) == common(cfg).insert("k8s-app"@, "cilium"@));
    assert(overlaid(common(cfg), two) == common(cfg).insert("io.cilium/app"@, "operator"@).insert(
        "name"@,
        "cilium-operator"@,
    ));
    assert(overlaid(common(cfg), three) == common(cfg).insert("k8s-app"@, "cilium-envoy"@).insert(
        "name"@,
        "cilium-envoy"@,
    ));
}

} // verus!
