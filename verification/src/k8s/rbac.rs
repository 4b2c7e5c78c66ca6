//! Who may do what.

use vstd::prelude::*;

use super::meta::{ObjectMeta, ObjectMetaView};

verus! {

/// Verbs allowed on resources.
#[derive(Clone, Debug, PartialEq)]
pub struct PolicyRule {
    pub api_groups: Option<Vec<String>>,
    pub resources: Option<Vec<String>>,
    pub verbs: Vec<String>,
}

/// What a [`PolicyRule`] holds.
#[verifier::ext_equal]
pub struct PolicyRuleView {
    pub api_groups: Option<Seq<Seq<char>>>,
    pub resources: Option<Seq<Seq<char>>>,
    pub verbs: Seq<Seq<char>>,
}

impl DeepView for PolicyRule {
    type V = PolicyRuleView;

    open spec fn deep_view(&self) -> PolicyRuleView {
        PolicyRuleView {
            api_groups: self.api_groups.deep_view(),
            resources: self.resources.deep_view(),
            verbs: self.verbs.deep_view(),
        }
    }
}

/// The role that a binding grants.
#[derive(Clone, Debug, PartialEq)]
pub struct RoleRef {
    pub api_group: String,
    pub kind: String,
    pub name: String,
}

/// What a [`RoleRef`] holds.
#[verifier::ext_equal]
pub struct RoleRefView {
    pub api_group: Seq<char>,
    pub kind: Seq<char>,
    pub name: Seq<char>,
}

impl DeepView for RoleRef {
    type V = RoleRefView;

    open spec fn deep_view(&self) -> RoleRefView {
        RoleRefView {
            api_group: self.api_group.deep_view(),
            kind: self.kind.deep_view(),
            name: self.name.deep_view(),
        }
    }
}

/// Whom a binding grants it to.
#[derive(Clone, Debug, PartialEq)]
pub struct Subject {
    pub api_group: Option<String>,
    pub kind: String,
    pub name: String,
    pub namespace: Option<String>,
}

/// What a [`Subject`] holds.
#[verifier::ext_equal]
pub struct SubjectView {
    pub api_group: Option<Seq<char>>,
    pub kind: Seq<char>,
    pub name: Seq<char>,
    pub namespace: Option<Seq<char>>,
}

impl DeepView for Subject {
    type V = SubjectView;

    open spec fn deep_view(&self) -> SubjectView {
        SubjectView {
            api_group: self.api_group.deep_view(),
            kind: self.kind.deep_view(),
            name: self.name.deep_view(),
            namespace: self.namespace.deep_view(),
        }
    }
}

/// Rules that hold in the whole cluster.
#[derive(Clone, Debug, PartialEq)]
pub struct ClusterRole {
    pub metadata: ObjectMeta,
    pub rules: Option<Vec<PolicyRule>>,
}

/// What a [`ClusterRole`] holds.
#[verifier::ext_equal]
pub struct ClusterRoleView {
    pub metadata: ObjectMetaView,
    pub rules: Option<Seq<PolicyRuleView>>,
}

impl DeepView for ClusterRole {
    type V = ClusterRoleView;

    open spec fn deep_view(&self) -> ClusterRoleView {
        ClusterRoleView {
            metadata: self.metadata.deep_view(),
            rules: self.rules.deep_view(),
        }
    }
}

/// Grants a ClusterRole.
#[derive(Clone, Debug, PartialEq)]
pub struct ClusterRoleBinding {
    pub metadata: ObjectMeta,
    pub role_ref: RoleRef,
    pub subjects: Option<Vec<Subject>>,
}

/// What a [`ClusterRoleBinding`] holds.
#[verifier::ext_equal]
pub struct ClusterRoleBindingView {
    pub metadata: ObjectMetaView,
    pub role_ref: RoleRefView,
    pub subjects: Option<Seq<SubjectView>>,
}

impl DeepView for ClusterRoleBinding {
    type V = ClusterRoleBindingView;

    open spec fn deep_view(&self) -> ClusterRoleBindingView {
        ClusterRoleBindingView {
            metadata: self.metadata.deep_view(),
            role_ref: self.role_ref.deep_view(),
            subjects: self.subjects.deep_view(),
        }
    }
}

/// Rules that hold in one namespace.
#[derive(Clone, Debug, PartialEq)]
pub struct Role {
    pub metadata: ObjectMeta,
    pub rules: Option<Vec<PolicyRule>>,
}

/// What a [`Role`] holds.
#[verifier::ext_equal]
pub struct RoleView {
    pub metadata: ObjectMetaView,
    pub rules: Option<Seq<PolicyRuleView>>,
}

impl DeepView for Role {
    type V = RoleView;

    open spec fn deep_view(&self) -> RoleView {
        RoleView {
            metadata: self.metadata.deep_view(),
            rules: self.rules.deep_view(),
        }
    }
}

/// Grants a role in one namespace.
#[derive(Clone, Debug, PartialEq)]
pub struct RoleBinding {
    pub metadata: ObjectMeta,
    pub role_ref: RoleRef,
    pub subjects: Option<Vec<Subject>>,
}

/// What a [`RoleBinding`] holds.
#[verifier::ext_equal]
pub struct RoleBindingView {
    pub metadata: ObjectMetaView,
    pub role_ref: RoleRefView,
    pub subjects: Option<Seq<SubjectView>>,
}

impl DeepView for RoleBinding {
    type V = RoleBindingView;

    open spec fn deep_view(&self) -> RoleBindingView {
        RoleBindingView {
            metadata: self.metadata.deep_view(),
            role_ref: self.role_ref.deep_view(),
            subjects: self.subjects.deep_view(),
        }
    }
}

} // verus!
