//! What holds of the agent, of `cilium-operator` and of Envoy.

use vstd::prelude::*;

use crate::k8s::meta::LabelSelectorView;
use crate::k8s::pod::{
    ContainerView, EnvVarView, PodSpecView, PodTemplateSpecView, ProbeView, VolumeView,
};
use crate::k8s::workload::{DaemonSetSpecView, DeploymentSpecView};
use crate::modes::EffectiveConfigView;
use crate::render::names::{AGENT_DS, OPERATOR_DEPLOY};
use crate::render::object::{BodyView, DynamicObjectView, RenderedView};

verus! {

use crate::render::laws::{key, law_ids_are_unique, law_the_object_list, namespaced};
use crate::render::object::typed_view;
use crate::render::{agent, config, envoy, lb, operator, rbac, render_view};
use crate::text::decimal;

// --- selectors -------------------------------------------------------------

/// Pods with these labels are selected.
pub open spec fn selects(selector: LabelSelectorView, labels: Map<Seq<char>, Seq<char>>) -> bool {
    selector.match_labels matches Some(wanted) && forall|k: Seq<char>| #[trigger]
        wanted.contains_key(k) ==> labels.contains_key(k) && labels[k] == wanted[k]
}

/// Each workload selects the pods of its own template.
pub proof fn law_selectors_match_their_pods(cfg: EffectiveConfigView)
    ensures
        selects(agent::selector_view(), agent::pod_labels_view(cfg)),
        selects(operator::selector_view(), operator::pod_labels_view(cfg)),
        selects(envoy::selector_view(), envoy::pod_labels_view(cfg)),
        agent::daemon_set_view(cfg).spec->0.selector == agent::selector_view(),
        agent::daemon_set_view(cfg).spec->0.template.metadata->0.labels == Some(
            agent::pod_labels_view(cfg),
        ),
        operator::deployment_view(cfg).spec->0.selector == operator::selector_view(),
        operator::deployment_view(cfg).spec->0.template.metadata->0.labels == Some(
            operator::pod_labels_view(cfg),
        ),
        envoy::daemon_set_view(cfg).spec->0.selector == envoy::selector_view(),
        envoy::daemon_set_view(cfg).spec->0.template.metadata->0.labels == Some(
            envoy::pod_labels_view(cfg),
        ),
{
    reveal_strlit("k8s-app");
    reveal_strlit("name");
    reveal_strlit("io.cilium/app");
    assert("k8s-app"@.len() == 7);
    assert("name"@.len() == 4);
    assert("io.cilium/app"@.len() == 13);
}

/// A selector cannot change under a running workload, and none does: it is the
/// same for every config.
pub proof fn law_selectors_do_not_depend_on_the_config(
    a: EffectiveConfigView,
    b: EffectiveConfigView,
)
    ensures
        agent::daemon_set_view(a).spec->0.selector == agent::daemon_set_view(b).spec->0.selector,
        operator::deployment_view(a).spec->0.selector == operator::deployment_view(
            b,
        ).spec->0.selector,
        envoy::daemon_set_view(a).spec->0.selector == envoy::daemon_set_view(b).spec->0.selector,
{
}

// --- mounts ----------------------------------------------------------------

/// A volume of this name is declared.
pub open spec fn declared(volumes: Seq<VolumeView>, name: Seq<char>) -> bool {
    exists|j: int| 0 <= j < volumes.len() && (#[trigger] volumes[j]).name == name
}

/// Every mount of a container names a declared volume.
pub open spec fn mounts_resolve(volumes: Seq<VolumeView>, c: ContainerView) -> bool {
    c.volume_mounts matches Some(mounts) && forall|m: int|
        0 <= m < mounts.len() ==> declared(volumes, (#[trigger] mounts[m]).name)
}

proof fn lemma_agent_volumes(cfg: EffectiveConfigView)
    ensures
        ({
            let v = agent::volumes_view(cfg);
            &&& declared(v, "tmp"@)
            &&& declared(v, "cilium-run"@)
            &&& declared(v, "bpf-maps"@)
            &&& declared(v, "hostproc"@)
            &&& declared(v, "cilium-cgroup"@)
            &&& declared(v, "cni-path"@)
            &&& declared(v, "etc-cni-netd"@)
            &&& declared(v, "lib-modules"@)
            &&& declared(v, "xtables-lock"@)
            &&& declared(v, "host-proc-sys-net"@)
            &&& declared(v, "host-proc-sys-kernel"@)
            &&& declared(v, "cilium-config-path"@)
            &&& cfg.envoy ==> declared(v, "envoy-sockets"@)
        }),
{
    let v = agent::volumes_view(cfg);
    assert(v[0].name == "tmp"@);
    assert(v[1].name == "cilium-run"@);
    assert(v[2].name == "bpf-maps"@);
    assert(v[3].name == "hostproc"@);
    assert(v[4].name == "cilium-cgroup"@);
    assert(v[5].name == "cni-path"@);
    assert(v[6].name == "etc-cni-netd"@);
    assert(v[7].name == "lib-modules"@);
    assert(v[8].name == "xtables-lock"@);
    assert(v[9].name == "host-proc-sys-net"@);
    assert(v[10].name == "host-proc-sys-kernel"@);
    assert(v[11].name == "cilium-config-path"@);
    if cfg.envoy {
        assert(v[12].name == "envoy-sockets"@);
    }
}

proof fn lemma_init_mounts_resolve(cfg: EffectiveConfigView)
    ensures
        forall|i: int|
            0 <= i < 6 ==> mounts_resolve(
                agent::volumes_view(cfg),
                #[trigger] agent::init_containers_view(cfg)[i],
            ),
{
    lemma_agent_volumes(cfg);
    let v = agent::volumes_view(cfg);
    assert(mounts_resolve(v, agent::config_container_view(cfg)));
    assert(mounts_resolve(v, agent::mount_cgroup_container_view(cfg)));
    assert(mounts_resolve(v, agent::sysctl_container_view(cfg)));
    assert(mounts_resolve(v, agent::mount_bpf_container_view(cfg)));
    assert(mounts_resolve(v, agent::clean_state_container_view(cfg)));
    assert(mounts_resolve(v, agent::install_cni_container_view(cfg)));
}

proof fn lemma_agent_mounts_resolve(cfg: EffectiveConfigView)
    ensures
        mounts_resolve(agent::volumes_view(cfg), agent::agent_container_view(cfg)),
{
    lemma_agent_volumes(cfg);
}

proof fn lemma_envoy_mounts_resolve(cfg: EffectiveConfigView)
    ensures
        mounts_resolve(envoy::volumes_view(), envoy::container_view(cfg)),
{
    let v = envoy::volumes_view();
    assert(v[0].name == "envoy-sockets"@);
    assert(v[1].name == "envoy-artifacts"@);
    assert(v[2].name == "envoy-config"@);
    assert(v[3].name == "bpf-maps"@);
}

/// Every mount of every container, init containers with them, is of a volume
/// that its pod declares.
pub proof fn law_every_mount_is_declared(cfg: EffectiveConfigView)
    ensures
        mounts_resolve(
            agent::pod_spec_view(cfg).volumes->0,
            agent::pod_spec_view(cfg).containers[0],
        ),
        agent::pod_spec_view(cfg).containers.len() == 1,
        agent::pod_spec_view(cfg).init_containers->0.len() == 6,
        forall|i: int|
            0 <= i < 6 ==> mounts_resolve(
                agent::pod_spec_view(cfg).volumes->0,
                #[trigger] agent::pod_spec_view(cfg).init_containers->0[i],
            ),
        operator::pod_spec_view(cfg).containers.len() == 1,
        mounts_resolve(
            operator::pod_spec_view(cfg).volumes->0,
            operator::pod_spec_view(cfg).containers[0],
        ),
        envoy::pod_spec_view(cfg).containers.len() == 1,
        mounts_resolve(
            envoy::pod_spec_view(cfg).volumes->0,
            envoy::pod_spec_view(cfg).containers[0],
        ),
{
    lemma_init_mounts_resolve(cfg);
    lemma_agent_mounts_resolve(cfg);
    lemma_envoy_mounts_resolve(cfg);
    let v = operator::pod_spec_view(cfg).volumes->0;
    assert(v[0].name == "cilium-config-path"@);
}

// --- upgrades --------------------------------------------------------------

/// A container that runs another image.
pub open spec fn with_image(c: ContainerView, image: Seq<char>) -> ContainerView {
    ContainerView { image: Some(image), ..c }
}

/// A pod whose containers, init containers with them, all run one image.
pub open spec fn reimaged(pod: PodSpecView, image: Seq<char>) -> PodSpecView {
    PodSpecView {
        containers: pod.containers.map_values(|c: ContainerView| with_image(c, image)),
        init_containers: match pod.init_containers {
            Some(cs) => Some(cs.map_values(|c: ContainerView| with_image(c, image))),
            None => None,
        },
        ..pod
    }
}

/// The same config at another version.
pub open spec fn at_version(cfg: EffectiveConfigView, version: Seq<char>) -> EffectiveConfigView {
    EffectiveConfigView { version, ..cfg }
}

proof fn lemma_agent_reimaged(cfg: EffectiveConfigView, version: Seq<char>)
    ensures
        agent::init_containers_view(at_version(cfg, version)) == agent::init_containers_view(
            cfg,
        ).map_values(
            |c: ContainerView| with_image(c, at_version(cfg, version).agent_image()),
        ),
        agent::agent_container_view(at_version(cfg, version)) == with_image(
            agent::agent_container_view(cfg),
            at_version(cfg, version).agent_image(),
        ),
        agent::volumes_view(at_version(cfg, version)) == agent::volumes_view(cfg),
{
    let b = at_version(cfg, version);
    let image = b.agent_image();
    assert(agent::config_container_view(b) == with_image(agent::config_container_view(cfg), image));
    assert(agent::mount_cgroup_container_view(b) == with_image(
        agent::mount_cgroup_container_view(cfg),
        image,
    ));
    assert(agent::sysctl_container_view(b) == with_image(agent::sysctl_container_view(cfg), image));
    assert(agent::mount_bpf_container_view(b) == with_image(
        agent::mount_bpf_container_view(cfg),
        image,
    ));
    assert(agent::clean_state_container_view(b) == with_image(
        agent::clean_state_container_view(cfg),
        image,
    ));
    assert(agent::install_cni_container_view(b) == with_image(
        agent::install_cni_container_view(cfg),
        image,
    ));
    assert(agent::init_containers_view(b) =~= agent::init_containers_view(cfg).map_values(
        |c: ContainerView| with_image(c, image),
    ));
}

/// A version bump is a new image in every container of the agent and of
/// `cilium-operator`, and nothing else: the configuration, RBAC, Envoy and the
/// rest of both pods stay as they are.
pub proof fn law_a_version_bump_changes_images_only(
    cfg: EffectiveConfigView,
    version: Seq<char>,
)
    ensures
        ({
            let b = at_version(cfg, version);
            &&& agent::pod_spec_view(b) == reimaged(agent::pod_spec_view(cfg), b.agent_image())
            &&& operator::pod_spec_view(b) == reimaged(
                operator::pod_spec_view(cfg),
                b.operator_image(),
            )
            &&& config::render_view(b) == config::render_view(cfg)
            &&& rbac::render_view(b) == rbac::render_view(cfg)
            &&& rbac::render_namespaced_view(b) == rbac::render_namespaced_view(cfg)
            &&& envoy::render_view(b) == envoy::render_view(cfg)
        }),
{
    let b = at_version(cfg, version);
    lemma_agent_reimaged(cfg, version);
    lemma_same_settings(cfg, version);
    assert(agent::pod_spec_view(b).containers =~= reimaged(
        agent::pod_spec_view(cfg),
        b.agent_image(),
    ).containers);
    assert(operator::container_view(b) == with_image(
        operator::container_view(cfg),
        b.operator_image(),
    ));
    assert(operator::pod_spec_view(b).containers =~= reimaged(
        operator::pod_spec_view(cfg),
        b.operator_image(),
    ).containers);
}

proof fn lemma_same_settings(cfg: EffectiveConfigView, version: Seq<char>)
    ensures
        config::render_view(at_version(cfg, version)) == config::render_view(cfg),
        rbac::render_view(at_version(cfg, version)) == rbac::render_view(cfg),
        rbac::render_namespaced_view(at_version(cfg, version)) == rbac::render_namespaced_view(cfg),
        envoy::render_view(at_version(cfg, version)) == envoy::render_view(cfg),
{
}

/// Where there are no Cilium CRs, or both versions serve them at one group
/// version, the CRs do not change either.
pub proof fn law_a_version_bump_keeps_the_crs(cfg: EffectiveConfigView, version: Seq<char>)
    requires
        cfg.lb_ipam ==> lb::api_version_of(cfg.version) == lb::api_version_of(version),
    ensures
        lb::render_view(at_version(cfg, version)) == lb::render_view(cfg),
{
}

/// A workload whose containers all run one image. All else stays: its metadata,
/// selector and strategy, and the labels of its pods.
pub open spec fn reimaged_workload(r: RenderedView, image: Seq<char>) -> RenderedView {
    let body = match r.obj.body {
        BodyView::DaemonSet { spec: Some(spec) } => BodyView::DaemonSet {
            spec: Some(
                DaemonSetSpecView { template: reimaged_template(spec.template, image), ..spec },
            ),
        },
        BodyView::Deployment { spec: Some(spec) } => BodyView::Deployment {
            spec: Some(
                DeploymentSpecView { template: reimaged_template(spec.template, image), ..spec },
            ),
        },
        other => other,
    };
    RenderedView { obj: DynamicObjectView { body, ..r.obj }, ..r }
}

/// A pod template whose containers all run one image.
pub open spec fn reimaged_template(
    template: PodTemplateSpecView,
    image: Seq<char>,
) -> PodTemplateSpecView {
    PodTemplateSpecView {
        spec: match template.spec {
            Some(pod) => Some(reimaged(pod, image)),
            None => None,
        },
        ..template
    }
}

/// What becomes of a rendered object when a config takes over: the agent and
/// `cilium-operator` run the images of that config, and all else stays.
pub open spec fn upgraded(r: RenderedView, to: EffectiveConfigView) -> RenderedView {
    if key(r) == namespaced("DaemonSet"@, AGENT_DS@) {
        reimaged_workload(r, to.agent_image())
    } else if key(r) == namespaced("Deployment"@, OPERATOR_DEPLOY@) {
        reimaged_workload(r, to.operator_image())
    } else {
        r
    }
}

proof fn lemma_workloads_upgraded(cfg: EffectiveConfigView, version: Seq<char>)
    ensures
        agent::render_view(at_version(cfg, version)) == reimaged_workload(
            agent::render_view(cfg),
            at_version(cfg, version).agent_image(),
        ),
        operator::render_view(at_version(cfg, version)) == reimaged_workload(
            operator::render_view(cfg),
            at_version(cfg, version).operator_image(),
        ),
{
    reveal(typed_view);
    law_a_version_bump_changes_images_only(cfg, version);
}

/// A version bump of the whole render: the same objects in the same order, each
/// as it was, but for the images that the agent and `cilium-operator` run. Where
/// there are Cilium CRs, both versions have to serve them at one group version.
pub proof fn law_a_version_bump_moves_two_workloads_only(
    cfg: EffectiveConfigView,
    version: Seq<char>,
)
    requires
        cfg.lb_ipam ==> lb::api_version_of(cfg.version) == lb::api_version_of(version),
    ensures
        render_view(at_version(cfg, version)) == render_view(cfg).map_values(
            |r: RenderedView| upgraded(r, at_version(cfg, version)),
        ),
{
    let b = at_version(cfg, version);
    let before = render_view(cfg);
    let after = render_view(b);
    lemma_same_settings(cfg, version);
    law_a_version_bump_keeps_the_crs(cfg, version);
    lemma_workloads_upgraded(cfg, version);
    law_the_object_list(cfg);
    law_ids_are_unique(cfg);
    let keys = before.map_values(|r: RenderedView| key(r));
    assert(before[9] == agent::render_view(cfg) && after[9] == agent::render_view(b));
    assert(before[10] == operator::render_view(cfg) && after[10] == operator::render_view(b));
    assert(key(before[9]) == keys[9] && keys[9] == namespaced("DaemonSet"@, AGENT_DS@));
    assert(key(before[10]) == keys[10] && keys[10] == namespaced(
        "Deployment"@,
        OPERATOR_DEPLOY@,
    ));
    assert forall|i: int| 0 <= i < before.len() implies #[trigger] after[i] == upgraded(
        before[i],
        b,
    ) by {
        assert(before[9].id() != before[10].id());
        if i != 9 && i != 10 {
            assert(after[i] == before[i]);
            assert(before[i].id() != before[9].id() && before[i].id() != before[10].id());
        }
    }
    assert(after =~= before.map_values(|r: RenderedView| upgraded(r, b)));
}

// --- privileges and endpoints ----------------------------------------------

/// A container that says which privileges it runs with.
pub open spec fn states_privileges(c: ContainerView) -> bool {
    c.security_context matches Some(sc) && (sc.privileged == Some(true) || sc.capabilities is Some
        || sc.se_linux_options is Some)
}

/// Every container of the agent pod says which privileges it runs with, and only
/// the one that mounts bpffs runs fully privileged.
pub proof fn law_every_agent_container_states_its_privileges(cfg: EffectiveConfigView)
    ensures
        states_privileges(agent::agent_container_view(cfg)),
        agent::agent_container_view(cfg).security_context->0.privileged != Some(true),
        forall|i: int|
            0 <= i < 6 ==> states_privileges(#[trigger] agent::init_containers_view(cfg)[i]) && ((
            agent::init_containers_view(cfg)[i].security_context->0.privileged == Some(true)) <==> i
                == 3),
        agent::init_containers_view(cfg)[3].name == "mount-bpf-fs"@,
{
}

/// An environment with this variable.
pub open spec fn has_env(env: Option<Seq<EnvVarView>>, name: Seq<char>, value: Seq<char>) -> bool {
    env matches Some(vars) && exists|i: int|
        0 <= i < vars.len() && (#[trigger] vars[i]).name == name && vars[i].value == Some(value)
}

/// Told where the apiserver is.
pub open spec fn knows_apiserver(cfg: EffectiveConfigView, c: ContainerView) -> bool {
    &&& has_env(c.env, "KUBERNETES_SERVICE_HOST"@, cfg.k8s_service_host)
    &&& has_env(c.env, "KUBERNETES_SERVICE_PORT"@, decimal(cfg.k8s_service_port as nat))
}

/// Everything that talks to the apiserver is told where it is: with kube-proxy
/// replacement there is no Service route to it until Cilium is up.
pub proof fn law_the_apiserver_endpoint_is_propagated(cfg: EffectiveConfigView)
    ensures
        knows_apiserver(cfg, agent::agent_container_view(cfg)),
        knows_apiserver(cfg, agent::config_container_view(cfg)),
        knows_apiserver(cfg, operator::container_view(cfg)),
        knows_apiserver(cfg, envoy::container_view(cfg)),
{
    let a = agent::agent_env_view(cfg);
    assert(a[2].name == "KUBERNETES_SERVICE_HOST"@ && a[3].name == "KUBERNETES_SERVICE_PORT"@);
    let i = agent::endpoint_env_view(cfg);
    assert(i[2].name == "KUBERNETES_SERVICE_HOST"@ && i[3].name == "KUBERNETES_SERVICE_PORT"@);
    let o = operator::operator_env_view(cfg);
    assert(o[2].name == "KUBERNETES_SERVICE_HOST"@ && o[3].name == "KUBERNETES_SERVICE_PORT"@);
    let e = envoy::envoy_env_view(cfg);
    assert(e[2].name == "KUBERNETES_SERVICE_HOST"@ && e[3].name == "KUBERNETES_SERVICE_PORT"@);
}

/// A probe of a port on loopback.
pub open spec fn probes_loopback(probe: Option<ProbeView>) -> bool {
    probe matches Some(p) && p.http_get matches Some(get) && get.host == Some("127.0.0.1"@)
}

/// All workloads are host-networked, so every probe goes to loopback.
pub proof fn law_probes_go_to_loopback(cfg: EffectiveConfigView)
    ensures
        agent::pod_spec_view(cfg).host_network == Some(true),
        probes_loopback(agent::agent_container_view(cfg).startup_probe),
        probes_loopback(agent::agent_container_view(cfg).liveness_probe),
        probes_loopback(agent::agent_container_view(cfg).readiness_probe),
        operator::pod_spec_view(cfg).host_network == Some(true),
        probes_loopback(operator::container_view(cfg).liveness_probe),
        probes_loopback(operator::container_view(cfg).readiness_probe),
        envoy::pod_spec_view(cfg).host_network == Some(true),
        probes_loopback(envoy::container_view(cfg).startup_probe),
        probes_loopback(envoy::container_view(cfg).liveness_probe),
        probes_loopback(envoy::container_view(cfg).readiness_probe),
{
}

} // verus!
