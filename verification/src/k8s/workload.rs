//! The workloads that keep pods running.

use vstd::prelude::*;

use super::meta::{LabelSelector, LabelSelectorView, ObjectMeta, ObjectMetaView};
use super::pod::{IntOrString, PodTemplateSpec, PodTemplateSpecView};

verus! {

/// How fast a DaemonSet is rolled.
#[derive(Clone, Debug, PartialEq)]
pub struct RollingUpdateDaemonSet {
    pub max_unavailable: Option<IntOrString>,
}

/// What a [`RollingUpdateDaemonSet`] holds.
#[verifier::ext_equal]
pub struct RollingUpdateDaemonSetView {
    pub max_unavailable: Option<IntOrString>,
}

impl DeepView for RollingUpdateDaemonSet {
    type V = RollingUpdateDaemonSetView;

    open spec fn deep_view(&self) -> RollingUpdateDaemonSetView {
        RollingUpdateDaemonSetView {
            max_unavailable: self.max_unavailable.deep_view(),
        }
    }
}

/// How a DaemonSet is updated.
#[derive(Clone, Debug, PartialEq)]
pub struct DaemonSetUpdateStrategy {
    pub rolling_update: Option<RollingUpdateDaemonSet>,
    pub type_: Option<String>,
}

/// What a [`DaemonSetUpdateStrategy`] holds.
#[verifier::ext_equal]
pub struct DaemonSetUpdateStrategyView {
    pub rolling_update: Option<RollingUpdateDaemonSetView>,
    pub type_: Option<Seq<char>>,
}

impl DeepView for DaemonSetUpdateStrategy {
    type V = DaemonSetUpdateStrategyView;

    open spec fn deep_view(&self) -> DaemonSetUpdateStrategyView {
        DaemonSetUpdateStrategyView {
            rolling_update: self.rolling_update.deep_view(),
            type_: self.type_.deep_view(),
        }
    }
}

/// A pod per node.
#[derive(Clone, Debug, PartialEq)]
pub struct DaemonSetSpec {
    pub selector: LabelSelector,
    pub template: PodTemplateSpec,
    pub update_strategy: Option<DaemonSetUpdateStrategy>,
}

/// What a [`DaemonSetSpec`] holds.
#[verifier::ext_equal]
pub struct DaemonSetSpecView {
    pub selector: LabelSelectorView,
    pub template: PodTemplateSpecView,
    pub update_strategy: Option<DaemonSetUpdateStrategyView>,
}

impl DeepView for DaemonSetSpec {
    type V = DaemonSetSpecView;

    open spec fn deep_view(&self) -> DaemonSetSpecView {
        DaemonSetSpecView {
            selector: self.selector.deep_view(),
            template: self.template.deep_view(),
            update_strategy: self.update_strategy.deep_view(),
        }
    }
}

/// A pod per node, by name.
#[derive(Clone, Debug, PartialEq)]
pub struct DaemonSet {
    pub metadata: ObjectMeta,
    pub spec: Option<DaemonSetSpec>,
}

/// What a [`DaemonSet`] holds.
#[verifier::ext_equal]
pub struct DaemonSetView {
    pub metadata: ObjectMetaView,
    pub spec: Option<DaemonSetSpecView>,
}

impl DeepView for DaemonSet {
    type V = DaemonSetView;

    open spec fn deep_view(&self) -> DaemonSetView {
        DaemonSetView {
            metadata: self.metadata.deep_view(),
            spec: self.spec.deep_view(),
        }
    }
}

/// How a Deployment is updated.
#[derive(Clone, Debug, PartialEq)]
pub struct DeploymentStrategy {
    pub type_: Option<String>,
}

/// What a [`DeploymentStrategy`] holds.
#[verifier::ext_equal]
pub struct DeploymentStrategyView {
    pub type_: Option<Seq<char>>,
}

impl DeepView for DeploymentStrategy {
    type V = DeploymentStrategyView;

    open spec fn deep_view(&self) -> DeploymentStrategyView {
        DeploymentStrategyView {
            type_: self.type_.deep_view(),
        }
    }
}

/// A number of replicas of a pod.
#[derive(Clone, Debug, PartialEq)]
pub struct DeploymentSpec {
    pub replicas: Option<i32>,
    pub selector: LabelSelector,
    pub strategy: Option<DeploymentStrategy>,
    pub template: PodTemplateSpec,
}

/// What a [`DeploymentSpec`] holds.
#[verifier::ext_equal]
pub struct DeploymentSpecView {
    pub replicas: Option<i32>,
    pub selector: LabelSelectorView,
    pub strategy: Option<DeploymentStrategyView>,
    pub template: PodTemplateSpecView,
}

impl DeepView for DeploymentSpec {
    type V = DeploymentSpecView;

    open spec fn deep_view(&self) -> DeploymentSpecView {
        DeploymentSpecView {
            replicas: self.replicas.deep_view(),
            selector: self.selector.deep_view(),
            strategy: self.strategy.deep_view(),
            template: self.template.deep_view(),
        }
    }
}

/// A number of replicas of a pod, by name.
#[derive(Clone, Debug, PartialEq)]
pub struct Deployment {
    pub metadata: ObjectMeta,
    pub spec: Option<DeploymentSpec>,
}

/// What a [`Deployment`] holds.
#[verifier::ext_equal]
pub struct DeploymentView {
    pub metadata: ObjectMetaView,
    pub spec: Option<DeploymentSpecView>,
}

impl DeepView for Deployment {
    type V = DeploymentView;

    open spec fn deep_view(&self) -> DeploymentView {
        DeploymentView {
            metadata: self.metadata.deep_view(),
            spec: self.spec.deep_view(),
        }
    }
}

} // verus!
