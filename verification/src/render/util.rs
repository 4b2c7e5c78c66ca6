//! Small constructors for the pod-spec types. These exist only to keep the
//! workload renders readable — every one is a plain struct literal.

use vstd::prelude::*;

use crate::k8s::pod::{
    AppArmorProfile, AppArmorProfileView, Capabilities, CapabilitiesView, ConfigMapKeySelector,
    ConfigMapKeySelectorView, ConfigMapVolumeSource, ConfigMapVolumeSourceView,
    EmptyDirVolumeSource, EmptyDirVolumeSourceView, EnvVar, EnvVarSource, EnvVarSourceView,
    EnvVarView, HTTPGetAction, HTTPGetActionView, HostPathVolumeSource, HostPathVolumeSourceView,
    IntOrString, ObjectFieldSelector, ObjectFieldSelectorView, PodSecurityContext,
    PodSecurityContextView, Probe, ProbeView, SELinuxOptions, SELinuxOptionsView, SeccompProfile,
    SeccompProfileView, SecurityContext, SecurityContextView, Toleration, TolerationView, Volume,
    VolumeMount, VolumeMountView, VolumeView,
};

verus! {

/// An env var with a value.
pub open spec fn env_view(name: Seq<char>, value: Seq<char>) -> EnvVarView {
    EnvVarView {
        name: name,
        value: Some(value),
        ..EnvVarView::unset()
    }
}

/// An env var with a value.
pub fn env(name: &str, value: &str) -> (r: EnvVar)
    ensures
        r.deep_view() == env_view(name@, value@),
{
    let r = EnvVar {
        name: name.to_string(),
        value: Some(value.to_string()),
        ..EnvVar::default()
    };
    assert(r.deep_view() =~~= env_view(name@, value@));
    r
}

/// An env var read from the pod's own object via the downward API.
pub open spec fn env_field_view(name: Seq<char>, field_path: Seq<char>) -> EnvVarView {
    EnvVarView {
        name: name,
        value_from: Some(
            EnvVarSourceView {
                field_ref: Some(
                    ObjectFieldSelectorView {
                        api_version: Some("v1"@),
                        field_path: field_path,
                    },
                ),
                ..EnvVarSourceView::unset()
            },
        ),
        ..EnvVarView::unset()
    }
}

/// An env var read from the pod's own object via the downward API.
pub fn env_field(name: &str, field_path: &str) -> (r: EnvVar)
    ensures
        r.deep_view() == env_field_view(name@, field_path@),
{
    let r = EnvVar {
        name: name.to_string(),
        value_from: Some(
            EnvVarSource {
                field_ref: Some(
                    ObjectFieldSelector {
                        api_version: Some("v1".to_string()),
                        field_path: field_path.to_string(),
                    },
                ),
                ..EnvVarSource::default()
            },
        ),
        ..EnvVar::default()
    };
    assert(r.deep_view() =~~= env_field_view(name@, field_path@));
    r
}

/// An optional env var from `cilium-config`.
pub open spec fn env_config_view(name: Seq<char>, key: Seq<char>, config_map: Seq<char>) -> EnvVarView {
    EnvVarView {
        name: name,
        value_from: Some(
            EnvVarSourceView {
                config_map_key_ref: Some(
                    ConfigMapKeySelectorView {
                        name: config_map,
                        key: key,
                        optional: Some(true),
                    },
                ),
                ..EnvVarSourceView::unset()
            },
        ),
        ..EnvVarView::unset()
    }
}

/// An optional env var from `cilium-config`. Optional because these keys are
/// operator escape hatches that are normally absent.
pub fn env_config(name: &str, key: &str, config_map: &str) -> (r: EnvVar)
    ensures
        r.deep_view() == env_config_view(name@, key@, config_map@),
{
    let r = EnvVar {
        name: name.to_string(),
        value_from: Some(
            EnvVarSource {
                config_map_key_ref: Some(
                    ConfigMapKeySelector {
                        name: config_map.to_string(),
                        key: key.to_string(),
                        optional: Some(true),
                    },
                ),
                ..EnvVarSource::default()
            },
        ),
        ..EnvVar::default()
    };
    assert(r.deep_view() =~~= env_config_view(name@, key@, config_map@));
    r
}

/// A mount.
pub open spec fn mount_view(name: Seq<char>, path: Seq<char>) -> VolumeMountView {
    VolumeMountView {
        name: name,
        mount_path: path,
        ..VolumeMountView::unset()
    }
}

/// A mount.
pub fn mount(name: &str, path: &str) -> (r: VolumeMount)
    ensures
        r.deep_view() == mount_view(name@, path@),
{
    let r = VolumeMount {
        name: name.to_string(),
        mount_path: path.to_string(),
        ..VolumeMount::default()
    };
    assert(r.deep_view() =~~= mount_view(name@, path@));
    r
}

/// A mount that cannot be written through.
pub open spec fn mount_ro_view(name: Seq<char>, path: Seq<char>) -> VolumeMountView {
    VolumeMountView { read_only: Some(true), ..mount_view(name, path) }
}

/// A mount that cannot be written through.
pub fn mount_ro(name: &str, path: &str) -> (r: VolumeMount)
    ensures
        r.deep_view() == mount_ro_view(name@, path@),
{
    let r = VolumeMount { read_only: Some(true), ..mount(name, path) };
    assert(r.deep_view() =~~= mount_ro_view(name@, path@));
    r
}

/// A mount whose sub-mounts propagate both ways — needed wherever the container
/// mounts something the host must also see (bpffs, cgroupv2).
pub open spec fn mount_bidirectional_view(name: Seq<char>, path: Seq<char>) -> VolumeMountView {
    VolumeMountView {
        mount_propagation: Some("Bidirectional"@),
        ..mount_view(name, path)
    }
}

/// A mount whose sub-mounts propagate both ways — needed wherever the container
/// mounts something the host must also see (bpffs, cgroupv2).
pub fn mount_bidirectional(name: &str, path: &str) -> (r: VolumeMount)
    ensures
        r.deep_view() == mount_bidirectional_view(name@, path@),
{
    let r = VolumeMount {
        mount_propagation: Some("Bidirectional".to_string()),
        ..mount(name, path)
    };
    assert(r.deep_view() =~~= mount_bidirectional_view(name@, path@));
    r
}

/// A volume of a path on the host.
pub open spec fn host_path_view(name: Seq<char>, path: Seq<char>, kind: Seq<char>) -> VolumeView {
    VolumeView {
        name: name,
        host_path: Some(
            HostPathVolumeSourceView { path: path, type_: Some(kind) },
        ),
        ..VolumeView::unset()
    }
}

/// A volume of a path on the host.
pub fn host_path(name: &str, path: &str, kind: &str) -> (r: Volume)
    ensures
        r.deep_view() == host_path_view(name@, path@, kind@),
{
    let r = Volume {
        name: name.to_string(),
        host_path: Some(
            HostPathVolumeSource { path: path.to_string(), type_: Some(kind.to_string()) },
        ),
        ..Volume::default()
    };
    assert(r.deep_view() =~~= host_path_view(name@, path@, kind@));
    r
}

/// A volume that starts empty and lives as long as the pod.
pub open spec fn empty_dir_view(name: Seq<char>) -> VolumeView {
    VolumeView {
        name: name,
        empty_dir: Some(EmptyDirVolumeSourceView {  }),
        ..VolumeView::unset()
    }
}

/// A volume that starts empty and lives as long as the pod.
pub fn empty_dir(name: &str) -> (r: Volume)
    ensures
        r.deep_view() == empty_dir_view(name@),
{
    let r = Volume {
        name: name.to_string(),
        empty_dir: Some(EmptyDirVolumeSource {  }),
        ..Volume::default()
    };
    assert(r.deep_view() =~~= empty_dir_view(name@));
    r
}

/// A volume of the keys of a ConfigMap.
pub open spec fn config_map_volume_view(name: Seq<char>, config_map: Seq<char>) -> VolumeView {
    VolumeView {
        name: name,
        config_map: Some(
            ConfigMapVolumeSourceView {
                name: config_map,
                ..ConfigMapVolumeSourceView::unset()
            },
        ),
        ..VolumeView::unset()
    }
}

/// A volume of the keys of a ConfigMap.
pub fn config_map_volume(name: &str, config_map: &str) -> (r: Volume)
    ensures
        r.deep_view() == config_map_volume_view(name@, config_map@),
{
    let r = Volume {
        name: name.to_string(),
        config_map: Some(
            ConfigMapVolumeSource {
                name: config_map.to_string(),
                ..ConfigMapVolumeSource::default()
            },
        ),
        ..Volume::default()
    };
    assert(r.deep_view() =~~= config_map_volume_view(name@, config_map@));
    r
}

/// Fully privileged.
pub open spec fn privileged_view() -> SecurityContextView {
    SecurityContextView { privileged: Some(true), ..SecurityContextView::unset() }
}

/// Fully privileged. Only `mount-bpf-fs` needs this; everything else uses an
/// explicit capability set via [`caps`].
pub fn privileged() -> (r: SecurityContext)
    ensures
        r.deep_view() == privileged_view(),
{
    let r = SecurityContext { privileged: Some(true), ..SecurityContext::default() };
    assert(r.deep_view() =~~= privileged_view());
    r
}

/// Drop every capability, then add back exactly the listed ones, with the
/// SELinux label Cilium needs on an enforcing host (`spc_t` — a
/// super-privileged container).
pub open spec fn caps_view(add: Seq<Seq<char>>) -> SecurityContextView {
    SecurityContextView {
        capabilities: Some(
            CapabilitiesView { add: Some(add), drop: Some(seq!["ALL"@]) },
        ),
        se_linux_options: Some(
            SELinuxOptionsView { level: Some("s0"@), type_: Some("spc_t"@) },
        ),
        ..SecurityContextView::unset()
    }
}

/// Drop every capability, then add back exactly the listed ones, with the
/// SELinux label Cilium needs on an enforcing host (`spc_t` — a
/// super-privileged container).
///
/// Preferred over blanket `privileged: true`: it is what upstream Cilium ships,
/// and it keeps each container to the privileges it actually uses.
pub fn caps(add: Vec<String>) -> (r: SecurityContext)
    ensures
        r.deep_view() == caps_view(add.deep_view()),
{
    let r = SecurityContext {
        capabilities: Some(
            Capabilities { add: Some(add), drop: Some(vec!["ALL".to_string()]) },
        ),
        se_linux_options: Some(
            SELinuxOptions { level: Some("s0".to_string()), type_: Some("spc_t".to_string()) },
        ),
        ..SecurityContext::default()
    };
    assert(r.deep_view() =~~= caps_view(add.deep_view()));
    r
}

/// Capabilities without the SELinux label — for containers that only talk to
/// the apiserver and never touch host paths.
pub open spec fn caps_no_selinux_view(add: Seq<Seq<char>>) -> SecurityContextView {
    SecurityContextView { se_linux_options: None, ..caps_view(add) }
}

/// Capabilities without the SELinux label — for containers that only talk to
/// the apiserver and never touch host paths.
pub fn caps_no_selinux(add: Vec<String>) -> (r: SecurityContext)
    ensures
        r.deep_view() == caps_no_selinux_view(add.deep_view()),
{
    let r = SecurityContext { se_linux_options: None, ..caps(add) };
    assert(r.deep_view() =~~= caps_no_selinux_view(add.deep_view()));
    r
}

/// The SELinux label alone, no added capabilities.
pub open spec fn selinux_only_view() -> SecurityContextView {
    SecurityContextView { capabilities: None, ..caps_view(Seq::empty()) }
}

/// The SELinux label alone, no added capabilities.
pub fn selinux_only() -> (r: SecurityContext)
    ensures
        r.deep_view() == selinux_only_view(),
{
    let r = SecurityContext { capabilities: None, ..caps(Vec::new()) };
    assert(r.deep_view() =~~= selinux_only_view());
    r
}

/// Pod-level security context.
pub open spec fn unconfined_pod_security_view(apparmor_only: bool) -> PodSecurityContextView {
    PodSecurityContextView {
        app_armor_profile: Some(AppArmorProfileView { type_: "Unconfined"@ }),
        seccomp_profile: if apparmor_only {
            None
        } else {
            Some(SeccompProfileView { type_: "Unconfined"@ })
        },
    }
}

/// Pod-level security context.
///
/// **Both profiles must be unconfined.** A default seccomp profile answers a
/// blocked syscall with `EPERM`, which surfaces as the agent's init containers
/// failing with "operation not permitted" — including `config`, which only
/// wants to reach the apiserver. Cilium programs the datapath and cannot run
/// under the default profiles.
pub fn unconfined_pod_security(apparmor_only: bool) -> (r: PodSecurityContext)
    ensures
        r.deep_view() == unconfined_pod_security_view(apparmor_only),
{
    let r = PodSecurityContext {
        app_armor_profile: Some(AppArmorProfile { type_: "Unconfined".to_string() }),
        seccomp_profile: if apparmor_only {
            None
        } else {
            Some(SeccompProfile { type_: "Unconfined".to_string() })
        },
    };
    assert(r.deep_view() =~~= unconfined_pod_security_view(apparmor_only));
    r
}

/// An HTTP probe against the agent's own health server on localhost.
pub open spec fn health_probe_view(port: i32, path: Seq<char>) -> ProbeView {
    ProbeView {
        http_get: Some(
            HTTPGetActionView {
                host: Some("127.0.0.1"@),
                path: Some(path),
                port: IntOrString::Int(port),
                scheme: Some("HTTP"@),
            },
        ),
        ..ProbeView::unset()
    }
}

/// An HTTP probe against the agent's own health server on localhost. The agent
/// is host-networked, so `host` must be pinned to loopback rather than left to
/// resolve to the pod IP.
pub fn health_probe(port: i32, path: &str) -> (r: Probe)
    ensures
        r.deep_view() == health_probe_view(port, path@),
{
    let r = Probe {
        http_get: Some(
            HTTPGetAction {
                host: Some("127.0.0.1".to_string()),
                path: Some(path.to_string()),
                port: IntOrString::Int(port),
                scheme: Some("HTTP".to_string()),
            },
        ),
        ..Probe::default()
    };
    assert(r.deep_view() =~~= health_probe_view(port, path@));
    r
}

/// Tolerate everything: the CNI has to run before a node can become Ready, so
/// no taint may keep it off.
pub open spec fn tolerate_all_view() -> Seq<TolerationView> {
    seq![
        TolerationView { effect: None, key: None, operator: Some("Exists"@) },
    ]
}

/// Tolerate everything: the CNI has to run before a node can become Ready, so
/// no taint may keep it off.
pub fn tolerate_all() -> (r: Vec<Toleration>)
    ensures
        r.deep_view() == tolerate_all_view(),
{
    let r = vec![
        Toleration { effect: None, key: None, operator: Some("Exists".to_string()) },
    ];
    assert(r.deep_view() =~~= tolerate_all_view());
    r
}

} // verus!
