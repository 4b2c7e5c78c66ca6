//! Pods: containers, what they mount, and where they may run.

use vstd::prelude::*;

use super::meta::{LabelSelector, LabelSelectorView, ObjectMeta, ObjectMetaView};
use crate::string_map::StringMap;

verus! {

/// A number, where the API also takes the name of a port.
#[derive(Clone, Copy, Debug, PartialEq, Eq, Structural)]
pub enum IntOrString {
    Int(i32),
}

impl DeepView for IntOrString {
    type V = IntOrString;

    open spec fn deep_view(&self) -> IntOrString {
        *self
    }
}

/// A field of the pod itself.
#[derive(Clone, Debug, PartialEq)]
pub struct ObjectFieldSelector {
    pub api_version: Option<String>,
    pub field_path: String,
}

/// What a [`ObjectFieldSelector`] holds.
#[verifier::ext_equal]
pub struct ObjectFieldSelectorView {
    pub api_version: Option<Seq<char>>,
    pub field_path: Seq<char>,
}

impl DeepView for ObjectFieldSelector {
    type V = ObjectFieldSelectorView;

    open spec fn deep_view(&self) -> ObjectFieldSelectorView {
        ObjectFieldSelectorView {
            api_version: self.api_version.deep_view(),
            field_path: self.field_path.deep_view(),
        }
    }
}

/// A key of a ConfigMap.
#[derive(Clone, Debug, PartialEq)]
pub struct ConfigMapKeySelector {
    pub key: String,
    pub name: String,
    pub optional: Option<bool>,
}

/// What a [`ConfigMapKeySelector`] holds.
#[verifier::ext_equal]
pub struct ConfigMapKeySelectorView {
    pub key: Seq<char>,
    pub name: Seq<char>,
    pub optional: Option<bool>,
}

impl DeepView for ConfigMapKeySelector {
    type V = ConfigMapKeySelectorView;

    open spec fn deep_view(&self) -> ConfigMapKeySelectorView {
        ConfigMapKeySelectorView {
            key: self.key.deep_view(),
            name: self.name.deep_view(),
            optional: self.optional.deep_view(),
        }
    }
}

/// Where an environment variable takes its value from.
#[derive(Clone, Debug, PartialEq)]
pub struct EnvVarSource {
    pub config_map_key_ref: Option<ConfigMapKeySelector>,
    pub field_ref: Option<ObjectFieldSelector>,
}

/// What a [`EnvVarSource`] holds.
#[verifier::ext_equal]
pub struct EnvVarSourceView {
    pub config_map_key_ref: Option<ConfigMapKeySelectorView>,
    pub field_ref: Option<ObjectFieldSelectorView>,
}

impl DeepView for EnvVarSource {
    type V = EnvVarSourceView;

    open spec fn deep_view(&self) -> EnvVarSourceView {
        EnvVarSourceView {
            config_map_key_ref: self.config_map_key_ref.deep_view(),
            field_ref: self.field_ref.deep_view(),
        }
    }
}

impl EnvVarSourceView {
    /// Nothing set.
    pub open spec fn unset() -> EnvVarSourceView {
        EnvVarSourceView {
            config_map_key_ref: None,
            field_ref: None,
        }
    }
}

impl Default for EnvVarSource {
    fn default() -> (r: EnvVarSource)
        ensures
            r.deep_view() == EnvVarSourceView::unset(),
    {
        EnvVarSource {
            config_map_key_ref: None,
            field_ref: None,
        }
    }
}

/// An environment variable.
#[derive(Clone, Debug, PartialEq)]
pub struct EnvVar {
    pub name: String,
    pub value: Option<String>,
    pub value_from: Option<EnvVarSource>,
}

/// What a [`EnvVar`] holds.
#[verifier::ext_equal]
pub struct EnvVarView {
    pub name: Seq<char>,
    pub value: Option<Seq<char>>,
    pub value_from: Option<EnvVarSourceView>,
}

impl DeepView for EnvVar {
    type V = EnvVarView;

    open spec fn deep_view(&self) -> EnvVarView {
        EnvVarView {
            name: self.name.deep_view(),
            value: self.value.deep_view(),
            value_from: self.value_from.deep_view(),
        }
    }
}

impl EnvVarView {
    /// Nothing set.
    pub open spec fn unset() -> EnvVarView {
        EnvVarView {
            name: Seq::empty(),
            value: None,
            value_from: None,
        }
    }
}

impl Default for EnvVar {
    fn default() -> (r: EnvVar)
        ensures
            r.deep_view() == EnvVarView::unset(),
    {
        EnvVar {
            name: String::new(),
            value: None,
            value_from: None,
        }
    }
}

/// A volume as a container sees it.
#[derive(Clone, Debug, PartialEq)]
pub struct VolumeMount {
    pub mount_path: String,
    pub mount_propagation: Option<String>,
    pub name: String,
    pub read_only: Option<bool>,
}

/// What a [`VolumeMount`] holds.
#[verifier::ext_equal]
pub struct VolumeMountView {
    pub mount_path: Seq<char>,
    pub mount_propagation: Option<Seq<char>>,
    pub name: Seq<char>,
    pub read_only: Option<bool>,
}

impl DeepView for VolumeMount {
    type V = VolumeMountView;

    open spec fn deep_view(&self) -> VolumeMountView {
        VolumeMountView {
            mount_path: self.mount_path.deep_view(),
            mount_propagation: self.mount_propagation.deep_view(),
            name: self.name.deep_view(),
            read_only: self.read_only.deep_view(),
        }
    }
}

impl VolumeMountView {
    /// Nothing set.
    pub open spec fn unset() -> VolumeMountView {
        VolumeMountView {
            mount_path: Seq::empty(),
            mount_propagation: None,
            name: Seq::empty(),
            read_only: None,
        }
    }
}

impl Default for VolumeMount {
    fn default() -> (r: VolumeMount)
        ensures
            r.deep_view() == VolumeMountView::unset(),
    {
        VolumeMount {
            mount_path: String::new(),
            mount_propagation: None,
            name: String::new(),
            read_only: None,
        }
    }
}

/// A path of the node.
#[derive(Clone, Debug, PartialEq)]
pub struct HostPathVolumeSource {
    pub path: String,
    pub type_: Option<String>,
}

/// What a [`HostPathVolumeSource`] holds.
#[verifier::ext_equal]
pub struct HostPathVolumeSourceView {
    pub path: Seq<char>,
    pub type_: Option<Seq<char>>,
}

impl DeepView for HostPathVolumeSource {
    type V = HostPathVolumeSourceView;

    open spec fn deep_view(&self) -> HostPathVolumeSourceView {
        HostPathVolumeSourceView {
            path: self.path.deep_view(),
            type_: self.type_.deep_view(),
        }
    }
}

/// A directory that lives as long as the pod.
#[derive(Clone, Debug, PartialEq)]
pub struct EmptyDirVolumeSource {}

/// What a [`EmptyDirVolumeSource`] holds.
#[verifier::ext_equal]
pub struct EmptyDirVolumeSourceView {}

impl DeepView for EmptyDirVolumeSource {
    type V = EmptyDirVolumeSourceView;

    open spec fn deep_view(&self) -> EmptyDirVolumeSourceView {
        EmptyDirVolumeSourceView {}
    }
}

/// A ConfigMap key and the file it becomes.
#[derive(Clone, Debug, PartialEq)]
pub struct KeyToPath {
    pub key: String,
    pub path: String,
}

/// What a [`KeyToPath`] holds.
#[verifier::ext_equal]
pub struct KeyToPathView {
    pub key: Seq<char>,
    pub path: Seq<char>,
}

impl DeepView for KeyToPath {
    type V = KeyToPathView;

    open spec fn deep_view(&self) -> KeyToPathView {
        KeyToPathView {
            key: self.key.deep_view(),
            path: self.path.deep_view(),
        }
    }
}

/// A ConfigMap as a directory of files.
#[derive(Clone, Debug, PartialEq)]
pub struct ConfigMapVolumeSource {
    pub default_mode: Option<i32>,
    pub items: Option<Vec<KeyToPath>>,
    pub name: String,
}

/// What a [`ConfigMapVolumeSource`] holds.
#[verifier::ext_equal]
pub struct ConfigMapVolumeSourceView {
    pub default_mode: Option<i32>,
    pub items: Option<Seq<KeyToPathView>>,
    pub name: Seq<char>,
}

impl DeepView for ConfigMapVolumeSource {
    type V = ConfigMapVolumeSourceView;

    open spec fn deep_view(&self) -> ConfigMapVolumeSourceView {
        ConfigMapVolumeSourceView {
            default_mode: self.default_mode.deep_view(),
            items: self.items.deep_view(),
            name: self.name.deep_view(),
        }
    }
}

impl ConfigMapVolumeSourceView {
    /// Nothing set.
    pub open spec fn unset() -> ConfigMapVolumeSourceView {
        ConfigMapVolumeSourceView {
            default_mode: None,
            items: None,
            name: Seq::empty(),
        }
    }
}

impl Default for ConfigMapVolumeSource {
    fn default() -> (r: ConfigMapVolumeSource)
        ensures
            r.deep_view() == ConfigMapVolumeSourceView::unset(),
    {
        ConfigMapVolumeSource {
            default_mode: None,
            items: None,
            name: String::new(),
        }
    }
}

/// A volume that containers may mount.
#[derive(Clone, Debug, PartialEq)]
pub struct Volume {
    pub config_map: Option<ConfigMapVolumeSource>,
    pub empty_dir: Option<EmptyDirVolumeSource>,
    pub host_path: Option<HostPathVolumeSource>,
    pub name: String,
}

/// What a [`Volume`] holds.
#[verifier::ext_equal]
pub struct VolumeView {
    pub config_map: Option<ConfigMapVolumeSourceView>,
    pub empty_dir: Option<EmptyDirVolumeSourceView>,
    pub host_path: Option<HostPathVolumeSourceView>,
    pub name: Seq<char>,
}

impl DeepView for Volume {
    type V = VolumeView;

    open spec fn deep_view(&self) -> VolumeView {
        VolumeView {
            config_map: self.config_map.deep_view(),
            empty_dir: self.empty_dir.deep_view(),
            host_path: self.host_path.deep_view(),
            name: self.name.deep_view(),
        }
    }
}

impl VolumeView {
    /// Nothing set.
    pub open spec fn unset() -> VolumeView {
        VolumeView {
            config_map: None,
            empty_dir: None,
            host_path: None,
            name: Seq::empty(),
        }
    }
}

impl Default for Volume {
    fn default() -> (r: Volume)
        ensures
            r.deep_view() == VolumeView::unset(),
    {
        Volume {
            config_map: None,
            empty_dir: None,
            host_path: None,
            name: String::new(),
        }
    }
}

/// Linux capabilities added and dropped.
#[derive(Clone, Debug, PartialEq)]
pub struct Capabilities {
    pub add: Option<Vec<String>>,
    pub drop: Option<Vec<String>>,
}

/// What a [`Capabilities`] holds.
#[verifier::ext_equal]
pub struct CapabilitiesView {
    pub add: Option<Seq<Seq<char>>>,
    pub drop: Option<Seq<Seq<char>>>,
}

impl DeepView for Capabilities {
    type V = CapabilitiesView;

    open spec fn deep_view(&self) -> CapabilitiesView {
        CapabilitiesView {
            add: self.add.deep_view(),
            drop: self.drop.deep_view(),
        }
    }
}

/// The SELinux label of a container.
#[derive(Clone, Debug, PartialEq)]
pub struct SELinuxOptions {
    pub level: Option<String>,
    pub type_: Option<String>,
}

/// What a [`SELinuxOptions`] holds.
#[verifier::ext_equal]
pub struct SELinuxOptionsView {
    pub level: Option<Seq<char>>,
    pub type_: Option<Seq<char>>,
}

impl DeepView for SELinuxOptions {
    type V = SELinuxOptionsView;

    open spec fn deep_view(&self) -> SELinuxOptionsView {
        SELinuxOptionsView {
            level: self.level.deep_view(),
            type_: self.type_.deep_view(),
        }
    }
}

/// The privileges of a container.
#[derive(Clone, Debug, PartialEq)]
pub struct SecurityContext {
    pub capabilities: Option<Capabilities>,
    pub privileged: Option<bool>,
    pub se_linux_options: Option<SELinuxOptions>,
}

/// What a [`SecurityContext`] holds.
#[verifier::ext_equal]
pub struct SecurityContextView {
    pub capabilities: Option<CapabilitiesView>,
    pub privileged: Option<bool>,
    pub se_linux_options: Option<SELinuxOptionsView>,
}

impl DeepView for SecurityContext {
    type V = SecurityContextView;

    open spec fn deep_view(&self) -> SecurityContextView {
        SecurityContextView {
            capabilities: self.capabilities.deep_view(),
            privileged: self.privileged.deep_view(),
            se_linux_options: self.se_linux_options.deep_view(),
        }
    }
}

impl SecurityContextView {
    /// Nothing set.
    pub open spec fn unset() -> SecurityContextView {
        SecurityContextView {
            capabilities: None,
            privileged: None,
            se_linux_options: None,
        }
    }
}

impl Default for SecurityContext {
    fn default() -> (r: SecurityContext)
        ensures
            r.deep_view() == SecurityContextView::unset(),
    {
        SecurityContext {
            capabilities: None,
            privileged: None,
            se_linux_options: None,
        }
    }
}

/// The AppArmor profile of a pod.
#[derive(Clone, Debug, PartialEq)]
pub struct AppArmorProfile {
    pub type_: String,
}

/// What a [`AppArmorProfile`] holds.
#[verifier::ext_equal]
pub struct AppArmorProfileView {
    pub type_: Seq<char>,
}

impl DeepView for AppArmorProfile {
    type V = AppArmorProfileView;

    open spec fn deep_view(&self) -> AppArmorProfileView {
        AppArmorProfileView {
            type_: self.type_.deep_view(),
        }
    }
}

/// The seccomp profile of a pod.
#[derive(Clone, Debug, PartialEq)]
pub struct SeccompProfile {
    pub type_: String,
}

/// What a [`SeccompProfile`] holds.
#[verifier::ext_equal]
pub struct SeccompProfileView {
    pub type_: Seq<char>,
}

impl DeepView for SeccompProfile {
    type V = SeccompProfileView;

    open spec fn deep_view(&self) -> SeccompProfileView {
        SeccompProfileView {
            type_: self.type_.deep_view(),
        }
    }
}

/// The privileges of a pod.
#[derive(Clone, Debug, PartialEq)]
pub struct PodSecurityContext {
    pub app_armor_profile: Option<AppArmorProfile>,
    pub seccomp_profile: Option<SeccompProfile>,
}

/// What a [`PodSecurityContext`] holds.
#[verifier::ext_equal]
pub struct PodSecurityContextView {
    pub app_armor_profile: Option<AppArmorProfileView>,
    pub seccomp_profile: Option<SeccompProfileView>,
}

impl DeepView for PodSecurityContext {
    type V = PodSecurityContextView;

    open spec fn deep_view(&self) -> PodSecurityContextView {
        PodSecurityContextView {
            app_armor_profile: self.app_armor_profile.deep_view(),
            seccomp_profile: self.seccomp_profile.deep_view(),
        }
    }
}

/// An HTTP request that a probe makes.
#[derive(Clone, Debug, PartialEq)]
pub struct HTTPGetAction {
    pub host: Option<String>,
    pub path: Option<String>,
    pub port: IntOrString,
    pub scheme: Option<String>,
}

/// What a [`HTTPGetAction`] holds.
#[verifier::ext_equal]
pub struct HTTPGetActionView {
    pub host: Option<Seq<char>>,
    pub path: Option<Seq<char>>,
    pub port: IntOrString,
    pub scheme: Option<Seq<char>>,
}

impl DeepView for HTTPGetAction {
    type V = HTTPGetActionView;

    open spec fn deep_view(&self) -> HTTPGetActionView {
        HTTPGetActionView {
            host: self.host.deep_view(),
            path: self.path.deep_view(),
            port: self.port.deep_view(),
            scheme: self.scheme.deep_view(),
        }
    }
}

/// How the kubelet asks a container for its health.
#[derive(Clone, Debug, PartialEq)]
pub struct Probe {
    pub failure_threshold: Option<i32>,
    pub http_get: Option<HTTPGetAction>,
    pub initial_delay_seconds: Option<i32>,
    pub period_seconds: Option<i32>,
    pub success_threshold: Option<i32>,
    pub timeout_seconds: Option<i32>,
}

/// What a [`Probe`] holds.
#[verifier::ext_equal]
pub struct ProbeView {
    pub failure_threshold: Option<i32>,
    pub http_get: Option<HTTPGetActionView>,
    pub initial_delay_seconds: Option<i32>,
    pub period_seconds: Option<i32>,
    pub success_threshold: Option<i32>,
    pub timeout_seconds: Option<i32>,
}

impl DeepView for Probe {
    type V = ProbeView;

    open spec fn deep_view(&self) -> ProbeView {
        ProbeView {
            failure_threshold: self.failure_threshold.deep_view(),
            http_get: self.http_get.deep_view(),
            initial_delay_seconds: self.initial_delay_seconds.deep_view(),
            period_seconds: self.period_seconds.deep_view(),
            success_threshold: self.success_threshold.deep_view(),
            timeout_seconds: self.timeout_seconds.deep_view(),
        }
    }
}

impl ProbeView {
    /// Nothing set.
    pub open spec fn unset() -> ProbeView {
        ProbeView {
            failure_threshold: None,
            http_get: None,
            initial_delay_seconds: None,
            period_seconds: None,
            success_threshold: None,
            timeout_seconds: None,
        }
    }
}

impl Default for Probe {
    fn default() -> (r: Probe)
        ensures
            r.deep_view() == ProbeView::unset(),
    {
        Probe {
            failure_threshold: None,
            http_get: None,
            initial_delay_seconds: None,
            period_seconds: None,
            success_threshold: None,
            timeout_seconds: None,
        }
    }
}

/// A taint that a pod puts up with.
#[derive(Clone, Debug, PartialEq)]
pub struct Toleration {
    pub effect: Option<String>,
    pub key: Option<String>,
    pub operator: Option<String>,
}

/// What a [`Toleration`] holds.
#[verifier::ext_equal]
pub struct TolerationView {
    pub effect: Option<Seq<char>>,
    pub key: Option<Seq<char>>,
    pub operator: Option<Seq<char>>,
}

impl DeepView for Toleration {
    type V = TolerationView;

    open spec fn deep_view(&self) -> TolerationView {
        TolerationView {
            effect: self.effect.deep_view(),
            key: self.key.deep_view(),
            operator: self.operator.deep_view(),
        }
    }
}

/// A port that a container listens on.
#[derive(Clone, Debug, PartialEq)]
pub struct ContainerPort {
    pub container_port: i32,
    pub host_port: Option<i32>,
    pub name: Option<String>,
    pub protocol: Option<String>,
}

/// What a [`ContainerPort`] holds.
#[verifier::ext_equal]
pub struct ContainerPortView {
    pub container_port: i32,
    pub host_port: Option<i32>,
    pub name: Option<Seq<char>>,
    pub protocol: Option<Seq<char>>,
}

impl DeepView for ContainerPort {
    type V = ContainerPortView;

    open spec fn deep_view(&self) -> ContainerPortView {
        ContainerPortView {
            container_port: self.container_port.deep_view(),
            host_port: self.host_port.deep_view(),
            name: self.name.deep_view(),
            protocol: self.protocol.deep_view(),
        }
    }
}

/// A container of a pod.
#[derive(Clone, Debug, PartialEq)]
pub struct Container {
    pub args: Option<Vec<String>>,
    pub command: Option<Vec<String>>,
    pub env: Option<Vec<EnvVar>>,
    pub image: Option<String>,
    pub image_pull_policy: Option<String>,
    pub liveness_probe: Option<Probe>,
    pub name: String,
    pub ports: Option<Vec<ContainerPort>>,
    pub readiness_probe: Option<Probe>,
    pub security_context: Option<SecurityContext>,
    pub startup_probe: Option<Probe>,
    pub termination_message_policy: Option<String>,
    pub volume_mounts: Option<Vec<VolumeMount>>,
}

/// What a [`Container`] holds.
#[verifier::ext_equal]
pub struct ContainerView {
    pub args: Option<Seq<Seq<char>>>,
    pub command: Option<Seq<Seq<char>>>,
    pub env: Option<Seq<EnvVarView>>,
    pub image: Option<Seq<char>>,
    pub image_pull_policy: Option<Seq<char>>,
    pub liveness_probe: Option<ProbeView>,
    pub name: Seq<char>,
    pub ports: Option<Seq<ContainerPortView>>,
    pub readiness_probe: Option<ProbeView>,
    pub security_context: Option<SecurityContextView>,
    pub startup_probe: Option<ProbeView>,
    pub termination_message_policy: Option<Seq<char>>,
    pub volume_mounts: Option<Seq<VolumeMountView>>,
}

impl DeepView for Container {
    type V = ContainerView;

    open spec fn deep_view(&self) -> ContainerView {
        ContainerView {
            args: self.args.deep_view(),
            command: self.command.deep_view(),
            env: self.env.deep_view(),
            image: self.image.deep_view(),
            image_pull_policy: self.image_pull_policy.deep_view(),
            liveness_probe: self.liveness_probe.deep_view(),
            name: self.name.deep_view(),
            ports: self.ports.deep_view(),
            readiness_probe: self.readiness_probe.deep_view(),
            security_context: self.security_context.deep_view(),
            startup_probe: self.startup_probe.deep_view(),
            termination_message_policy: self.termination_message_policy.deep_view(),
            volume_mounts: self.volume_mounts.deep_view(),
        }
    }
}

impl ContainerView {
    /// Nothing set.
    pub open spec fn unset() -> ContainerView {
        ContainerView {
            args: None,
            command: None,
            env: None,
            image: None,
            image_pull_policy: None,
            liveness_probe: None,
            name: Seq::empty(),
            ports: None,
            readiness_probe: None,
            security_context: None,
            startup_probe: None,
            termination_message_policy: None,
            volume_mounts: None,
        }
    }
}

impl Default for Container {
    fn default() -> (r: Container)
        ensures
            r.deep_view() == ContainerView::unset(),
    {
        Container {
            args: None,
            command: None,
            env: None,
            image: None,
            image_pull_policy: None,
            liveness_probe: None,
            name: String::new(),
            ports: None,
            readiness_probe: None,
            security_context: None,
            startup_probe: None,
            termination_message_policy: None,
            volume_mounts: None,
        }
    }
}

/// A requirement on one label of a node.
#[derive(Clone, Debug, PartialEq)]
pub struct NodeSelectorRequirement {
    pub key: String,
    pub operator: String,
    pub values: Option<Vec<String>>,
}

/// What a [`NodeSelectorRequirement`] holds.
#[verifier::ext_equal]
pub struct NodeSelectorRequirementView {
    pub key: Seq<char>,
    pub operator: Seq<char>,
    pub values: Option<Seq<Seq<char>>>,
}

impl DeepView for NodeSelectorRequirement {
    type V = NodeSelectorRequirementView;

    open spec fn deep_view(&self) -> NodeSelectorRequirementView {
        NodeSelectorRequirementView {
            key: self.key.deep_view(),
            operator: self.operator.deep_view(),
            values: self.values.deep_view(),
        }
    }
}

/// Requirements that a node must meet together.
#[derive(Clone, Debug, PartialEq)]
pub struct NodeSelectorTerm {
    pub match_expressions: Option<Vec<NodeSelectorRequirement>>,
}

/// What a [`NodeSelectorTerm`] holds.
#[verifier::ext_equal]
pub struct NodeSelectorTermView {
    pub match_expressions: Option<Seq<NodeSelectorRequirementView>>,
}

impl DeepView for NodeSelectorTerm {
    type V = NodeSelectorTermView;

    open spec fn deep_view(&self) -> NodeSelectorTermView {
        NodeSelectorTermView {
            match_expressions: self.match_expressions.deep_view(),
        }
    }
}

/// Terms of which a node must meet one.
#[derive(Clone, Debug, PartialEq)]
pub struct NodeSelector {
    pub node_selector_terms: Vec<NodeSelectorTerm>,
}

/// What a [`NodeSelector`] holds.
#[verifier::ext_equal]
pub struct NodeSelectorView {
    pub node_selector_terms: Seq<NodeSelectorTermView>,
}

impl DeepView for NodeSelector {
    type V = NodeSelectorView;

    open spec fn deep_view(&self) -> NodeSelectorView {
        NodeSelectorView {
            node_selector_terms: self.node_selector_terms.deep_view(),
        }
    }
}

/// Which nodes a pod may run on.
#[derive(Clone, Debug, PartialEq)]
pub struct NodeAffinity {
    pub required_during_scheduling_ignored_during_execution: Option<NodeSelector>,
}

/// What a [`NodeAffinity`] holds.
#[verifier::ext_equal]
pub struct NodeAffinityView {
    pub required_during_scheduling_ignored_during_execution: Option<NodeSelectorView>,
}

impl DeepView for NodeAffinity {
    type V = NodeAffinityView;

    open spec fn deep_view(&self) -> NodeAffinityView {
        NodeAffinityView {
            required_during_scheduling_ignored_during_execution: self.required_during_scheduling_ignored_during_execution.deep_view(),
        }
    }
}

/// Pods, and the topology in which to look for them.
#[derive(Clone, Debug, PartialEq)]
pub struct PodAffinityTerm {
    pub label_selector: Option<LabelSelector>,
    pub topology_key: String,
}

/// What a [`PodAffinityTerm`] holds.
#[verifier::ext_equal]
pub struct PodAffinityTermView {
    pub label_selector: Option<LabelSelectorView>,
    pub topology_key: Seq<char>,
}

impl DeepView for PodAffinityTerm {
    type V = PodAffinityTermView;

    open spec fn deep_view(&self) -> PodAffinityTermView {
        PodAffinityTermView {
            label_selector: self.label_selector.deep_view(),
            topology_key: self.topology_key.deep_view(),
        }
    }
}

/// Pods that must be near.
#[derive(Clone, Debug, PartialEq)]
pub struct PodAffinity {
    pub required_during_scheduling_ignored_during_execution: Option<Vec<PodAffinityTerm>>,
}

/// What a [`PodAffinity`] holds.
#[verifier::ext_equal]
pub struct PodAffinityView {
    pub required_during_scheduling_ignored_during_execution: Option<Seq<PodAffinityTermView>>,
}

impl DeepView for PodAffinity {
    type V = PodAffinityView;

    open spec fn deep_view(&self) -> PodAffinityView {
        PodAffinityView {
            required_during_scheduling_ignored_during_execution: self.required_during_scheduling_ignored_during_execution.deep_view(),
        }
    }
}

/// Pods that must not be near.
#[derive(Clone, Debug, PartialEq)]
pub struct PodAntiAffinity {
    pub required_during_scheduling_ignored_during_execution: Option<Vec<PodAffinityTerm>>,
}

/// What a [`PodAntiAffinity`] holds.
#[verifier::ext_equal]
pub struct PodAntiAffinityView {
    pub required_during_scheduling_ignored_during_execution: Option<Seq<PodAffinityTermView>>,
}

impl DeepView for PodAntiAffinity {
    type V = PodAntiAffinityView;

    open spec fn deep_view(&self) -> PodAntiAffinityView {
        PodAntiAffinityView {
            required_during_scheduling_ignored_during_execution: self.required_during_scheduling_ignored_during_execution.deep_view(),
        }
    }
}

/// Where a pod may be scheduled.
#[derive(Clone, Debug, PartialEq)]
pub struct Affinity {
    pub node_affinity: Option<NodeAffinity>,
    pub pod_affinity: Option<PodAffinity>,
    pub pod_anti_affinity: Option<PodAntiAffinity>,
}

/// What a [`Affinity`] holds.
#[verifier::ext_equal]
pub struct AffinityView {
    pub node_affinity: Option<NodeAffinityView>,
    pub pod_affinity: Option<PodAffinityView>,
    pub pod_anti_affinity: Option<PodAntiAffinityView>,
}

impl DeepView for Affinity {
    type V = AffinityView;

    open spec fn deep_view(&self) -> AffinityView {
        AffinityView {
            node_affinity: self.node_affinity.deep_view(),
            pod_affinity: self.pod_affinity.deep_view(),
            pod_anti_affinity: self.pod_anti_affinity.deep_view(),
        }
    }
}

/// What runs in a pod.
#[derive(Clone, Debug, PartialEq)]
pub struct PodSpec {
    pub affinity: Option<Affinity>,
    pub containers: Vec<Container>,
    pub dns_policy: Option<String>,
    pub host_network: Option<bool>,
    pub host_pid: Option<bool>,
    pub init_containers: Option<Vec<Container>>,
    pub node_selector: Option<StringMap>,
    pub priority_class_name: Option<String>,
    pub restart_policy: Option<String>,
    pub security_context: Option<PodSecurityContext>,
    pub service_account_name: Option<String>,
    pub termination_grace_period_seconds: Option<i64>,
    pub tolerations: Option<Vec<Toleration>>,
    pub volumes: Option<Vec<Volume>>,
}

/// What a [`PodSpec`] holds.
#[verifier::ext_equal]
pub struct PodSpecView {
    pub affinity: Option<AffinityView>,
    pub containers: Seq<ContainerView>,
    pub dns_policy: Option<Seq<char>>,
    pub host_network: Option<bool>,
    pub host_pid: Option<bool>,
    pub init_containers: Option<Seq<ContainerView>>,
    pub node_selector: Option<Map<Seq<char>, Seq<char>>>,
    pub priority_class_name: Option<Seq<char>>,
    pub restart_policy: Option<Seq<char>>,
    pub security_context: Option<PodSecurityContextView>,
    pub service_account_name: Option<Seq<char>>,
    pub termination_grace_period_seconds: Option<i64>,
    pub tolerations: Option<Seq<TolerationView>>,
    pub volumes: Option<Seq<VolumeView>>,
}

impl DeepView for PodSpec {
    type V = PodSpecView;

    open spec fn deep_view(&self) -> PodSpecView {
        PodSpecView {
            affinity: self.affinity.deep_view(),
            containers: self.containers.deep_view(),
            dns_policy: self.dns_policy.deep_view(),
            host_network: self.host_network.deep_view(),
            host_pid: self.host_pid.deep_view(),
            init_containers: self.init_containers.deep_view(),
            node_selector: self.node_selector.deep_view(),
            priority_class_name: self.priority_class_name.deep_view(),
            restart_policy: self.restart_policy.deep_view(),
            security_context: self.security_context.deep_view(),
            service_account_name: self.service_account_name.deep_view(),
            termination_grace_period_seconds: self.termination_grace_period_seconds.deep_view(),
            tolerations: self.tolerations.deep_view(),
            volumes: self.volumes.deep_view(),
        }
    }
}

impl PodSpecView {
    /// Nothing set.
    pub open spec fn unset() -> PodSpecView {
        PodSpecView {
            affinity: None,
            containers: Seq::empty(),
            dns_policy: None,
            host_network: None,
            host_pid: None,
            init_containers: None,
            node_selector: None,
            priority_class_name: None,
            restart_policy: None,
            security_context: None,
            service_account_name: None,
            termination_grace_period_seconds: None,
            tolerations: None,
            volumes: None,
        }
    }
}

impl Default for PodSpec {
    fn default() -> (r: PodSpec)
        ensures
            r.deep_view() == PodSpecView::unset(),
    {
        let r = PodSpec {
            affinity: None,
            containers: Vec::new(),
            dns_policy: None,
            host_network: None,
            host_pid: None,
            init_containers: None,
            node_selector: None,
            priority_class_name: None,
            restart_policy: None,
            security_context: None,
            service_account_name: None,
            termination_grace_period_seconds: None,
            tolerations: None,
            volumes: None,
        };
        assert(r.containers.deep_view() =~= Seq::empty());
        r
    }
}

/// The pods that a workload creates.
#[derive(Clone, Debug, PartialEq)]
pub struct PodTemplateSpec {
    pub metadata: Option<ObjectMeta>,
    pub spec: Option<PodSpec>,
}

/// What a [`PodTemplateSpec`] holds.
#[verifier::ext_equal]
pub struct PodTemplateSpecView {
    pub metadata: Option<ObjectMetaView>,
    pub spec: Option<PodSpecView>,
}

impl DeepView for PodTemplateSpec {
    type V = PodTemplateSpecView;

    open spec fn deep_view(&self) -> PodTemplateSpecView {
        PodTemplateSpecView {
            metadata: self.metadata.deep_view(),
            spec: self.spec.deep_view(),
        }
    }
}

} // verus!
