//! Objects as they are sent to the apiserver: the typed ones, and the Cilium
//! CRs that have no type of their own.

use vstd::prelude::*;

use crate::k8s::meta::{
    ApiResource, ApiResourceView, ObjectMeta, ObjectMetaView, TypeMeta, TypeMetaView,
};
use crate::k8s::rbac::{
    ClusterRole, ClusterRoleBinding, ClusterRoleBindingView, ClusterRoleView, PolicyRule,
    PolicyRuleView, Role, RoleBinding, RoleBindingView, RoleRef, RoleRefView, RoleView, Subject,
    SubjectView,
};
use crate::k8s::resource::{
    ConfigMap, ConfigMapView, Service, ServiceAccount, ServiceAccountView, ServiceSpec,
    ServiceSpecView, ServiceView,
};
use crate::k8s::workload::{
    DaemonSet, DaemonSetSpec, DaemonSetSpecView, DaemonSetView, Deployment, DeploymentSpec,
    DeploymentSpecView, DeploymentView,
};
use crate::render::api;
use crate::render::value::{Value, ValueView};
use crate::string_map::StringMap;
use crate::text::{cat3, clone_option};

verus! {

use crate::text::given;

/// An object of a kind that Kubernetes itself defines.
#[derive(Clone, Debug, PartialEq)]
pub enum Object {
    ServiceAccount(ServiceAccount),
    ClusterRole(ClusterRole),
    ClusterRoleBinding(ClusterRoleBinding),
    Role(Role),
    RoleBinding(RoleBinding),
    ConfigMap(ConfigMap),
    DaemonSet(DaemonSet),
    Deployment(Deployment),
    Service(Service),
}

/// What an [`Object`] holds.
#[verifier::ext_equal]
pub enum ObjectView {
    ServiceAccount(ServiceAccountView),
    ClusterRole(ClusterRoleView),
    ClusterRoleBinding(ClusterRoleBindingView),
    Role(RoleView),
    RoleBinding(RoleBindingView),
    ConfigMap(ConfigMapView),
    DaemonSet(DaemonSetView),
    Deployment(DeploymentView),
    Service(ServiceView),
}

impl DeepView for Object {
    type V = ObjectView;

    open spec fn deep_view(&self) -> ObjectView {
        match self {
            Object::ServiceAccount(o) => ObjectView::ServiceAccount(o.deep_view()),
            Object::ClusterRole(o) => ObjectView::ClusterRole(o.deep_view()),
            Object::ClusterRoleBinding(o) => ObjectView::ClusterRoleBinding(o.deep_view()),
            Object::Role(o) => ObjectView::Role(o.deep_view()),
            Object::RoleBinding(o) => ObjectView::RoleBinding(o.deep_view()),
            Object::ConfigMap(o) => ObjectView::ConfigMap(o.deep_view()),
            Object::DaemonSet(o) => ObjectView::DaemonSet(o.deep_view()),
            Object::Deployment(o) => ObjectView::Deployment(o.deep_view()),
            Object::Service(o) => ObjectView::Service(o.deep_view()),
        }
    }
}

/// An object without its metadata.
#[derive(Clone, Debug, PartialEq)]
pub enum Body {
    ServiceAccount,
    ClusterRole { rules: Option<Vec<PolicyRule>> },
    ClusterRoleBinding { role_ref: RoleRef, subjects: Option<Vec<Subject>> },
    Role { rules: Option<Vec<PolicyRule>> },
    RoleBinding { role_ref: RoleRef, subjects: Option<Vec<Subject>> },
    ConfigMap { data: Option<StringMap> },
    DaemonSet { spec: Option<DaemonSetSpec> },
    Deployment { spec: Option<DeploymentSpec> },
    Service { spec: Option<ServiceSpec> },
    /// A resource there is no type for: its `spec`.
    Custom { spec: Value },
}

/// What a [`Body`] holds.
#[verifier::ext_equal]
pub enum BodyView {
    ServiceAccount,
    ClusterRole { rules: Option<Seq<PolicyRuleView>> },
    ClusterRoleBinding { role_ref: RoleRefView, subjects: Option<Seq<SubjectView>> },
    Role { rules: Option<Seq<PolicyRuleView>> },
    RoleBinding { role_ref: RoleRefView, subjects: Option<Seq<SubjectView>> },
    ConfigMap { data: Option<Map<Seq<char>, Seq<char>>> },
    DaemonSet { spec: Option<DaemonSetSpecView> },
    Deployment { spec: Option<DeploymentSpecView> },
    Service { spec: Option<ServiceSpecView> },
    Custom { spec: ValueView },
}

impl DeepView for Body {
    type V = BodyView;

    open spec fn deep_view(&self) -> BodyView {
        match self {
            Body::ServiceAccount => BodyView::ServiceAccount,
            Body::ClusterRole { rules } => BodyView::ClusterRole { rules: rules.deep_view() },
            Body::ClusterRoleBinding { role_ref, subjects } => BodyView::ClusterRoleBinding {
                role_ref: role_ref.deep_view(),
                subjects: subjects.deep_view(),
            },
            Body::Role { rules } => BodyView::Role { rules: rules.deep_view() },
            Body::RoleBinding { role_ref, subjects } => BodyView::RoleBinding {
                role_ref: role_ref.deep_view(),
                subjects: subjects.deep_view(),
            },
            Body::ConfigMap { data } => BodyView::ConfigMap { data: data.deep_view() },
            Body::DaemonSet { spec } => BodyView::DaemonSet { spec: spec.deep_view() },
            Body::Deployment { spec } => BodyView::Deployment { spec: spec.deep_view() },
            Body::Service { spec } => BodyView::Service { spec: spec.deep_view() },
            Body::Custom { spec } => BodyView::Custom { spec: spec.deep_view() },
        }
    }
}

/// An object of any kind, as the dynamic client takes it.
#[derive(Clone, Debug, PartialEq)]
pub struct DynamicObject {
    pub types: Option<TypeMeta>,
    pub metadata: ObjectMeta,
    pub body: Body,
}

/// What a [`DynamicObject`] holds.
#[verifier::ext_equal]
pub struct DynamicObjectView {
    pub types: Option<TypeMetaView>,
    pub metadata: ObjectMetaView,
    pub body: BodyView,
}

impl DeepView for DynamicObject {
    type V = DynamicObjectView;

    open spec fn deep_view(&self) -> DynamicObjectView {
        DynamicObjectView {
            types: self.types.deep_view(),
            metadata: self.metadata.deep_view(),
            body: self.body.deep_view(),
        }
    }
}

/// One object to apply, plus the type information the dynamic client needs.
#[derive(Clone, Debug, PartialEq)]
pub struct Rendered {
    pub api: ApiResource,
    pub namespace: Option<String>,
    pub obj: DynamicObject,
}

/// What a [`Rendered`] holds.
#[verifier::ext_equal]
pub struct RenderedView {
    pub api: ApiResourceView,
    pub namespace: Option<Seq<char>>,
    pub obj: DynamicObjectView,
}

impl DeepView for Rendered {
    type V = RenderedView;

    open spec fn deep_view(&self) -> RenderedView {
        RenderedView {
            api: self.api.deep_view(),
            namespace: self.namespace.deep_view(),
            obj: self.obj.deep_view(),
        }
    }
}

impl RenderedView {
    /// The name; empty where there is none.
    pub open spec fn name(self) -> Seq<char> {
        given(self.obj.metadata.name, ""@)
    }

    /// `Kind/name`, or `Kind/ns/name`.
    pub open spec fn id(self) -> Seq<char> {
        match self.namespace {
            Some(ns) => self.api.kind + "/"@ + ns + "/"@ + self.name(),
            None => self.api.kind + "/"@ + self.name(),
        }
    }
}

impl Rendered {
    /// The name; empty where there is none.
    pub fn name(&self) -> (r: &str)
        ensures
            r@ == self.deep_view().name(),
    {
        match &self.obj.metadata.name {
            Some(name) => name.as_str(),
            None => "",
        }
    }

    /// `Kind/name` (or `Kind/ns/name`), for logs and conditions.
    pub fn id(&self) -> (r: String)
        ensures
            r@ == self.deep_view().id(),
    {
        match &self.namespace {
            Some(ns) => {
                let scope = cat3(self.api.kind.as_str(), "/", ns.as_str());
                cat3(scope.as_str(), "/", self.name())
            },
            None => cat3(self.api.kind.as_str(), "/", self.name()),
        }
    }
}

/// An object under the apiVersion and kind of where it is served.
pub open spec fn rendered_view(
    api: ApiResourceView,
    metadata: ObjectMetaView,
    body: BodyView,
) -> RenderedView {
    RenderedView {
        api,
        namespace: metadata.namespace,
        obj: DynamicObjectView {
            types: Some(TypeMetaView { api_version: api.api_version, kind: api.kind }),
            metadata,
            body,
        },
    }
}

fn rendered(api: ApiResource, metadata: ObjectMeta, body: Body) -> (r: Rendered)
    ensures
        r.deep_view() == rendered_view(api.deep_view(), metadata.deep_view(), body.deep_view()),
{
    let namespace = clone_option(&metadata.namespace);
    let types = TypeMeta { api_version: api.api_version.clone(), kind: api.kind.clone() };
    Rendered { api, namespace, obj: DynamicObject { types: Some(types), metadata, body } }
}

/// A typed object as it is sent.
#[verifier::opaque]
pub open spec fn typed_view(obj: ObjectView) -> RenderedView {
    match obj {
        ObjectView::ServiceAccount(o) => rendered_view(
            api::service_account_view(),
            o.metadata,
            BodyView::ServiceAccount,
        ),
        ObjectView::ClusterRole(o) => rendered_view(
            api::cluster_role_view(),
            o.metadata,
            BodyView::ClusterRole { rules: o.rules },
        ),
        ObjectView::ClusterRoleBinding(o) => rendered_view(
            api::cluster_role_binding_view(),
            o.metadata,
            BodyView::ClusterRoleBinding { role_ref: o.role_ref, subjects: o.subjects },
        ),
        ObjectView::Role(o) => rendered_view(
            api::role_view(),
            o.metadata,
            BodyView::Role { rules: o.rules },
        ),
        ObjectView::RoleBinding(o) => rendered_view(
            api::role_binding_view(),
            o.metadata,
            BodyView::RoleBinding { role_ref: o.role_ref, subjects: o.subjects },
        ),
        ObjectView::ConfigMap(o) => rendered_view(
            api::config_map_view(),
            o.metadata,
            BodyView::ConfigMap { data: o.data },
        ),
        ObjectView::DaemonSet(o) => rendered_view(
            api::daemon_set_view(),
            o.metadata,
            BodyView::DaemonSet { spec: o.spec },
        ),
        ObjectView::Deployment(o) => rendered_view(
            api::deployment_view(),
            o.metadata,
            BodyView::Deployment { spec: o.spec },
        ),
        ObjectView::Service(o) => rendered_view(
            api::service_view(),
            o.metadata,
            BodyView::Service { spec: o.spec },
        ),
    }
}

/// Wrap a typed object as a [`Rendered`], attaching the apiVersion/kind that the
/// typed structs do not carry.
pub fn typed(obj: Object) -> (r: Rendered)
    ensures
        r.deep_view() == typed_view(obj.deep_view()),
{
    proof {
        reveal(typed_view);
    }
    match obj {
        Object::ServiceAccount(o) => rendered(
            api::service_account(),
            o.metadata,
            Body::ServiceAccount,
        ),
        Object::ClusterRole(o) => rendered(
            api::cluster_role(),
            o.metadata,
            Body::ClusterRole { rules: o.rules },
        ),
        Object::ClusterRoleBinding(o) => rendered(
            api::cluster_role_binding(),
            o.metadata,
            Body::ClusterRoleBinding { role_ref: o.role_ref, subjects: o.subjects },
        ),
        Object::Role(o) => rendered(api::role(), o.metadata, Body::Role { rules: o.rules }),
        Object::RoleBinding(o) => rendered(
            api::role_binding(),
            o.metadata,
            Body::RoleBinding { role_ref: o.role_ref, subjects: o.subjects },
        ),
        Object::ConfigMap(o) => rendered(
            api::config_map(),
            o.metadata,
            Body::ConfigMap { data: o.data },
        ),
        Object::DaemonSet(o) => rendered(
            api::daemon_set(),
            o.metadata,
            Body::DaemonSet { spec: o.spec },
        ),
        Object::Deployment(o) => rendered(
            api::deployment(),
            o.metadata,
            Body::Deployment { spec: o.spec },
        ),
        Object::Service(o) => rendered(api::service(), o.metadata, Body::Service { spec: o.spec }),
    }
}

/// Where a resource of a group is served.
pub open spec fn custom_api(
    group: Seq<char>,
    version: Seq<char>,
    kind: Seq<char>,
    plural: Seq<char>,
) -> ApiResourceView {
    ApiResourceView { group, version, api_version: group + "/"@ + version, kind, plural }
}

/// A resource there is no type for, as it is sent.
pub open spec fn custom_view(
    group: Seq<char>,
    version: Seq<char>,
    kind: Seq<char>,
    plural: Seq<char>,
    metadata: ObjectMetaView,
    spec: ValueView,
) -> RenderedView {
    rendered_view(
        custom_api(group, version, kind, plural),
        metadata,
        BodyView::Custom { spec },
    )
}

/// Build a [`Rendered`] for a resource we have no type for — the Cilium CRs,
/// whose CRDs `cilium-operator` installs at runtime.
pub fn custom(
    group: &str,
    version: &str,
    kind: &str,
    plural: &str,
    metadata: ObjectMeta,
    spec: Value,
) -> (r: Rendered)
    ensures
        r.deep_view() == custom_view(
            group@,
            version@,
            kind@,
            plural@,
            metadata.deep_view(),
            spec.deep_view(),
        ),
{
    let api = ApiResource {
        group: group.to_string(),
        version: version.to_string(),
        api_version: cat3(group, "/", version),
        kind: kind.to_string(),
        plural: plural.to_string(),
    };
    rendered(api, metadata, Body::Custom { spec })
}

} // verus!
