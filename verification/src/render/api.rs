//! Where the apiserver serves each kind of object that is rendered.
//!
//! The answers are `kube`'s, read off the types of `k8s-openapi`.

use vstd::prelude::*;

use crate::k8s::meta::{ApiResource, ApiResourceView};

verus! {

/// Where a `ServiceAccount` is served.
pub open spec fn service_account_view() -> ApiResourceView {
    ApiResourceView {
        group: ""@,
        version: "v1"@,
        api_version: "v1"@,
        kind: "ServiceAccount"@,
        plural: "serviceaccounts"@,
    }
}

/// Calls `kube::api::ApiResource::erase` on `k8s_openapi`'s `ServiceAccount`. Claimed: the
/// group, version, kind and plural name are the ones that type declares.
#[verifier::external_body]
pub(crate) fn service_account() -> (r: ApiResource)
    ensures
        r.deep_view() == service_account_view(),
{
    let api = kube::api::ApiResource::erase::<k8s_openapi::api::core::v1::ServiceAccount>(&());
    ApiResource {
        group: api.group,
        version: api.version,
        api_version: api.api_version,
        kind: api.kind,
        plural: api.plural,
    }
}

/// Where a `ClusterRole` is served.
pub open spec fn cluster_role_view() -> ApiResourceView {
    ApiResourceView {
        group: "rbac.authorization.k8s.io"@,
        version: "v1"@,
        api_version: "rbac.authorization.k8s.io/v1"@,
        kind: "ClusterRole"@,
        plural: "clusterroles"@,
    }
}

/// Calls `kube::api::ApiResource::erase` on `k8s_openapi`'s `ClusterRole`. Claimed: the
/// group, version, kind and plural name are the ones that type declares.
#[verifier::external_body]
pub(crate) fn cluster_role() -> (r: ApiResource)
    ensures
        r.deep_view() == cluster_role_view(),
{
    let api = kube::api::ApiResource::erase::<k8s_openapi::api::rbac::v1::ClusterRole>(&());
    ApiResource {
        group: api.group,
        version: api.version,
        api_version: api.api_version,
        kind: api.kind,
        plural: api.plural,
    }
}

/// Where a `ClusterRoleBinding` is served.
pub open spec fn cluster_role_binding_view() -> ApiResourceView {
    ApiResourceView {
        group: "rbac.authorization.k8s.io"@,
        version: "v1"@,
        api_version: "rbac.authorization.k8s.io/v1"@,
        kind: "ClusterRoleBinding"@,
        plural: "clusterrolebindings"@,
    }
}

/// Calls `kube::api::ApiResource::erase` on `k8s_openapi`'s `ClusterRoleBinding`. Claimed: the
/// group, version, kind and plural name are the ones that type declares.
#[verifier::external_body]
pub(crate) fn cluster_role_binding() -> (r: ApiResource)
    ensures
        r.deep_view() == cluster_role_binding_view(),
{
    let api = kube::api::ApiResource::erase::<k8s_openapi::api::rbac::v1::ClusterRoleBinding>(&());
    ApiResource {
        group: api.group,
        version: api.version,
        api_version: api.api_version,
        kind: api.kind,
        plural: api.plural,
    }
}

/// Where a `Role` is served.
pub open spec fn role_view() -> ApiResourceView {
    ApiResourceView {
        group: "rbac.authorization.k8s.io"@,
        version: "v1"@,
        api_version: "rbac.authorization.k8s.io/v1"@,
        kind: "Role"@,
        plural: "roles"@,
    }
}

/// Calls `kube::api::ApiResource::erase` on `k8s_openapi`'s `Role`. Claimed: the
/// group, version, kind and plural name are the ones that type declares.
#[verifier::external_body]
pub(crate) fn role() -> (r: ApiResource)
    ensures
        r.deep_view() == role_view(),
{
    let api = kube::api::ApiResource::erase::<k8s_openapi::api::rbac::v1::Role>(&());
    ApiResource {
        group: api.group,
        version: api.version,
        api_version: api.api_version,
        kind: api.kind,
        plural: api.plural,
    }
}

/// Where a `RoleBinding` is served.
pub open spec fn role_binding_view() -> ApiResourceView {
    ApiResourceView {
        group: "rbac.authorization.k8s.io"@,
        version: "v1"@,
        api_version: "rbac.authorization.k8s.io/v1"@,
        kind: "RoleBinding"@,
        plural: "rolebindings"@,
    }
}

/// Calls `kube::api::ApiResource::erase` on `k8s_openapi`'s `RoleBinding`. Claimed: the
/// group, version, kind and plural name are the ones that type declares.
#[verifier::external_body]
pub(crate) fn role_binding() -> (r: ApiResource)
    ensures
        r.deep_view() == role_binding_view(),
{
    let api = kube::api::ApiResource::erase::<k8s_openapi::api::rbac::v1::RoleBinding>(&());
    ApiResource {
        group: api.group,
        version: api.version,
        api_version: api.api_version,
        kind: api.kind,
        plural: api.plural,
    }
}

/// Where a `ConfigMap` is served.
pub open spec fn config_map_view() -> ApiResourceView {
    ApiResourceView {
        group: ""@,
        version: "v1"@,
        api_version: "v1"@,
        kind: "ConfigMap"@,
        plural: "configmaps"@,
    }
}

/// Calls `kube::api::ApiResource::erase` on `k8s_openapi`'s `ConfigMap`. Claimed: the
/// group, version, kind and plural name are the ones that type declares.
#[verifier::external_body]
pub(crate) fn config_map() -> (r: ApiResource)
    ensures
        r.deep_view() == config_map_view(),
{
    let api = kube::api::ApiResource::erase::<k8s_openapi::api::core::v1::ConfigMap>(&());
    ApiResource {
        group: api.group,
        version: api.version,
        api_version: api.api_version,
        kind: api.kind,
        plural: api.plural,
    }
}

/// Where a `DaemonSet` is served.
pub open spec fn daemon_set_view() -> ApiResourceView {
    ApiResourceView {
        group: "apps"@,
        version: "v1"@,
        api_version: "apps/v1"@,
        kind: "DaemonSet"@,
        plural: "daemonsets"@,
    }
}

/// Calls `kube::api::ApiResource::erase` on `k8s_openapi`'s `DaemonSet`. Claimed: the
/// group, version, kind and plural name are the ones that type declares.
#[verifier::external_body]
pub(crate) fn daemon_set() -> (r: ApiResource)
    ensures
        r.deep_view() == daemon_set_view(),
{
    let api = kube::api::ApiResource::erase::<k8s_openapi::api::apps::v1::DaemonSet>(&());
    ApiResource {
        group: api.group,
        version: api.version,
        api_version: api.api_version,
        kind: api.kind,
        plural: api.plural,
    }
}

/// Where a `Deployment` is served.
pub open spec fn deployment_view() -> ApiResourceView {
    ApiResourceView {
        group: "apps"@,
        version: "v1"@,
        api_version: "apps/v1"@,
        kind: "Deployment"@,
        plural: "deployments"@,
    }
}

/// Calls `kube::api::ApiResource::erase` on `k8s_openapi`'s `Deployment`. Claimed: the
/// group, version, kind and plural name are the ones that type declares.
#[verifier::external_body]
pub(crate) fn deployment() -> (r: ApiResource)
    ensures
        r.deep_view() == deployment_view(),
{
    let api = kube::api::ApiResource::erase::<k8s_openapi::api::apps::v1::Deployment>(&());
    ApiResource {
        group: api.group,
        version: api.version,
        api_version: api.api_version,
        kind: api.kind,
        plural: api.plural,
    }
}

/// Where a `Service` is served.
pub open spec fn service_view() -> ApiResourceView {
    ApiResourceView {
        group: ""@,
        version: "v1"@,
        api_version: "v1"@,
        kind: "Service"@,
        plural: "services"@,
    }
}

/// Calls `kube::api::ApiResource::erase` on `k8s_openapi`'s `Service`. Claimed: the
/// group, version, kind and plural name are the ones that type declares.
#[verifier::external_body]
pub(crate) fn service() -> (r: ApiResource)
    ensures
        r.deep_view() == service_view(),
{
    let api = kube::api::ApiResource::erase::<k8s_openapi::api::core::v1::Service>(&());
    ApiResource {
        group: api.group,
        version: api.version,
        api_version: api.api_version,
        kind: api.kind,
        plural: api.plural,
    }
}

} // verus!
