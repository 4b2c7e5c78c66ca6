//! The agent DaemonSet.

use network_operator::crd::{BgpPeer, BgpSpec, CiliumSpec, LoadBalancerSpec, Mode, NetworkSpec};
use network_operator::k8s::pod::IntOrString;
use network_operator::k8s::workload::DaemonSet;
use network_operator::modes::{resolve, EffectiveConfig};
use network_operator::render::agent::{agent_caps, nsenter_caps, render};
use network_operator::render::object::Body;
use network_operator::render::AGENT_HEALTH_PORT;

/// The example clusters, as a spec.
fn spec_for(mode: Mode) -> NetworkSpec {
    let load_balancer = match mode {
        Mode::Bgp => Some(LoadBalancerSpec {
            pools: Some(vec!["192.168.8.240/28".into()]),
            bgp: Some(BgpSpec {
                local_asn: Some(64512),
                peers: vec![BgpPeer { address: "192.168.8.1".into(), asn: 64512 }],
            }),
            ..Default::default()
        }),
        Mode::BareMetal => Some(LoadBalancerSpec {
            pools: Some(vec!["192.168.8.240/28".into()]),
            ..Default::default()
        }),
        _ => None,
    };

    NetworkSpec {
        mode,
        cluster_network: vec!["10.244.0.0/16".into()],
        service_network: vec!["10.96.0.0/12".into()],
        cilium: Some(CiliumSpec {
            k8s_service_host: Some("192.168.8.98".into()),
            k8s_service_port: Some(6443),
            load_balancer,
            ..Default::default()
        }),
        ..Default::default()
    }
}

fn cfg_for(mode: Mode) -> EffectiveConfig {
    resolve(&spec_for(mode)).expect("test fixtures must be valid")
}

fn ds(cfg: &EffectiveConfig) -> DaemonSet {
    let obj = render(cfg).obj;
    match obj.body {
        Body::DaemonSet { spec } => DaemonSet { metadata: obj.metadata, spec },
        other => panic!("not a DaemonSet: {other:?}"),
    }
}

#[test]
fn agent_selector_matches_the_pod_template_labels() {
    let ds = ds(&cfg_for(Mode::Overlay));
    let spec = ds.spec.unwrap();
    let selector = spec.selector.match_labels.unwrap();
    let labels = spec.template.metadata.unwrap().labels.unwrap();
    for (k, v) in selector.pairs() {
        assert_eq!(labels.get(k.as_str()), Some(v), "pod template must match selector on {k}");
    }
}

#[test]
fn selector_does_not_depend_on_spec_and_so_stays_immutable() {
    let a = ds(&cfg_for(Mode::Overlay)).spec.unwrap().selector;
    let b = ds(&cfg_for(Mode::Bgp)).spec.unwrap().selector;
    assert_eq!(a, b);
}

#[test]
fn agent_is_told_where_the_apiserver_is() {
    let ds = ds(&cfg_for(Mode::Overlay));
    let spec = ds.spec.unwrap();
    let pod = spec.template.spec.unwrap();
    for c in pod.containers.iter().chain(pod.init_containers.as_ref().unwrap()) {
        // Only the containers that talk to the apiserver need it.
        if c.name != "cilium-agent" && c.name != "config" {
            continue;
        }
        let env = c.env.as_ref().unwrap();
        let host = env.iter().find(|e| e.name == "KUBERNETES_SERVICE_HOST").unwrap();
        assert_eq!(host.value.as_deref(), Some("192.168.8.98"));
        let port = env.iter().find(|e| e.name == "KUBERNETES_SERVICE_PORT").unwrap();
        assert_eq!(port.value.as_deref(), Some("6443"));
    }
}

#[test]
fn startup_probe_gives_the_first_boot_room_before_liveness() {
    let ds = ds(&cfg_for(Mode::Overlay));
    let pod = ds.spec.unwrap().template.spec.unwrap();
    let agent = &pod.containers[0];
    let startup = agent.startup_probe.as_ref().expect("startupProbe is required");
    let budget = startup.failure_threshold.unwrap() * startup.period_seconds.unwrap();
    assert!(budget >= 60, "first-boot budget is only {budget}s");
    assert!(agent.liveness_probe.is_some());
    assert!(agent.readiness_probe.is_some());
}

#[test]
fn probes_target_loopback_because_the_pod_is_host_networked() {
    let ds = ds(&cfg_for(Mode::Overlay));
    let pod = ds.spec.clone().unwrap().template.spec.unwrap();
    assert_eq!(pod.host_network, Some(true));
    assert_eq!(pod.dns_policy.as_deref(), Some("ClusterFirstWithHostNet"));
    let get = pod.containers[0]
        .liveness_probe
        .as_ref()
        .unwrap()
        .http_get
        .as_ref()
        .unwrap();
    assert_eq!(get.host.as_deref(), Some("127.0.0.1"));
    assert_eq!(get.port, IntOrString::Int(AGENT_HEALTH_PORT));
}

#[test]
fn tolerates_every_taint_so_it_can_make_nodes_ready() {
    let ds = ds(&cfg_for(Mode::Overlay));
    let tolerations = ds.spec.unwrap().template.spec.unwrap().tolerations.unwrap();
    assert_eq!(tolerations.len(), 1);
    assert_eq!(tolerations[0].operator.as_deref(), Some("Exists"));
    assert!(tolerations[0].key.is_none());
    assert!(tolerations[0].effect.is_none());
}

/// A default seccomp profile answers blocked
/// syscalls with EPERM, which stalled the `config` init container on nothing
/// more than an HTTPS call to the apiserver.
#[test]
fn pod_runs_unconfined_or_the_datapath_cannot_be_programmed() {
    let ds = ds(&cfg_for(Mode::Overlay));
    let sc = ds
        .spec
        .unwrap()
        .template
        .spec
        .unwrap()
        .security_context
        .expect("pod-level securityContext is required");
    assert_eq!(sc.seccomp_profile.unwrap().type_, "Unconfined");
    assert_eq!(sc.app_armor_profile.unwrap().type_, "Unconfined");
}

/// An absent securityContext silently inherits the runtime default,
/// which is how the `config` container ended up with no NET_ADMIN.
#[test]
fn every_container_states_its_privileges_explicitly() {
    let ds = ds(&cfg_for(Mode::Overlay));
    let pod = ds.spec.unwrap().template.spec.unwrap();
    for c in pod.containers.iter().chain(pod.init_containers.as_ref().unwrap()) {
        let sc = c
            .security_context
            .as_ref()
            .unwrap_or_else(|| panic!("{} has no securityContext", c.name));
        assert!(
            sc.privileged == Some(true) || sc.capabilities.is_some() || sc.se_linux_options.is_some(),
            "{} has an empty securityContext",
            c.name
        );
    }
}

#[test]
fn privileges_match_the_known_good_install() {
    let ds = ds(&cfg_for(Mode::Overlay));
    let pod = ds.spec.unwrap().template.spec.unwrap();
    let find = |name: &str| {
        pod.containers
            .iter()
            .chain(pod.init_containers.as_ref().unwrap())
            .find(|c| c.name == name)
            .unwrap_or_else(|| panic!("no container {name}"))
            .security_context
            .clone()
            .unwrap()
    };
    let added = |name: &str| find(name).capabilities.and_then(|c| c.add).unwrap_or_default();

    // config only talks to the apiserver: one capability, and no SELinux
    // label because it touches no host path.
    assert_eq!(added("config"), vec!["NET_ADMIN"]);
    assert!(find("config").se_linux_options.is_none());

    assert_eq!(added("mount-cgroup"), nsenter_caps());
    assert_eq!(added("apply-sysctl-overwrites"), nsenter_caps());
    assert_eq!(added("cilium-agent"), agent_caps());

    // Blanket privilege is reserved for the one container that truly needs
    // it; everything else names its capabilities.
    assert_eq!(find("mount-bpf-fs").privileged, Some(true));
    for name in [
        "config",
        "mount-cgroup",
        "apply-sysctl-overwrites",
        "clean-cilium-state",
        "install-cni-binaries",
        "cilium-agent",
    ] {
        assert_ne!(find(name).privileged, Some(true), "{name} should not be privileged");
    }

    // Anything writing host paths needs the spc_t label under enforcing
    // SELinux.
    for name in ["mount-cgroup", "clean-cilium-state", "install-cni-binaries", "cilium-agent"] {
        assert_eq!(
            find(name).se_linux_options.unwrap().type_.as_deref(),
            Some("spc_t"),
            "{name} needs the spc_t label"
        );
    }
}

#[test]
fn agent_every_mount_resolves_to_a_declared_volume() {
    let ds = ds(&cfg_for(Mode::Overlay));
    let pod = ds.spec.unwrap().template.spec.unwrap();
    let declared: Vec<_> = pod.volumes.unwrap().into_iter().map(|v| v.name).collect();
    for c in pod.containers.iter().chain(pod.init_containers.as_ref().unwrap()) {
        for m in c.volume_mounts.iter().flatten() {
            assert!(
                declared.contains(&m.name),
                "container {} mounts undeclared volume {}",
                c.name,
                m.name
            );
        }
    }
}

#[test]
fn version_bump_changes_every_image_and_nothing_else() {
    let base = cfg_for(Mode::Overlay);
    let mut bumped = base.clone();
    bumped.version = "1.20.0".into();

    let before = ds(&base).spec.unwrap().template.spec.unwrap();
    let after = ds(&bumped).spec.unwrap().template.spec.unwrap();
    for c in after.containers.iter().chain(after.init_containers.as_ref().unwrap()) {
        assert_eq!(c.image.as_deref(), Some("quay.io/cilium/cilium:v1.20.0"));
    }
    assert_ne!(before.containers[0].image, after.containers[0].image);
}

#[test]
fn the_capabilities_are_the_listed_ones() {
    assert_eq!(
        agent_caps(),
        [
            "CHOWN", "KILL", "NET_ADMIN", "NET_RAW", "IPC_LOCK", "SYS_MODULE", "SYS_ADMIN",
            "SYS_RESOURCE", "DAC_OVERRIDE", "FOWNER", "SETGID", "SETUID", "SYSLOG",
        ]
    );
    assert_eq!(nsenter_caps(), ["SYS_ADMIN", "SYS_CHROOT", "SYS_PTRACE"]);
}

#[test]
fn a_standalone_envoy_adds_its_socket_directory_to_the_agent() {
    let mut cfg = cfg_for(Mode::Overlay);
    let without = ds(&cfg).spec.unwrap().template.spec.unwrap();
    cfg.envoy = true;
    let with = ds(&cfg).spec.unwrap().template.spec.unwrap();

    let mounts = with.containers[0].volume_mounts.as_ref().unwrap();
    assert_eq!(mounts.len(), without.containers[0].volume_mounts.as_ref().unwrap().len() + 1);
    let socket = mounts.last().unwrap();
    assert_eq!(socket.name, "envoy-sockets");
    assert_eq!(socket.mount_path, "/var/run/cilium/envoy/sockets");
    assert_eq!(with.volumes.unwrap().last().unwrap().name, "envoy-sockets");
    assert!(without.volumes.unwrap().iter().all(|v| v.name != "envoy-sockets"));
}

#[test]
fn the_host_is_prepared_in_order() {
    let pod = ds(&cfg_for(Mode::Overlay)).spec.unwrap().template.spec.unwrap();
    let names: Vec<String> = pod.init_containers.unwrap().into_iter().map(|c| c.name).collect();
    assert_eq!(
        names,
        [
            "config",
            "mount-cgroup",
            "apply-sysctl-overwrites",
            "mount-bpf-fs",
            "clean-cilium-state",
            "install-cni-binaries",
        ]
    );
    assert_eq!(pod.priority_class_name.as_deref(), Some("system-node-critical"));
}
