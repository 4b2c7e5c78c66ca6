//! Accounts, configuration and services.

use vstd::prelude::*;

use super::meta::{ObjectMeta, ObjectMetaView};
use super::pod::IntOrString;
use crate::string_map::StringMap;

verus! {

/// The identity that pods run under.
#[derive(Clone, Debug, PartialEq)]
pub struct ServiceAccount {
    pub metadata: ObjectMeta,
}

/// What a [`ServiceAccount`] holds.
#[verifier::ext_equal]
pub struct ServiceAccountView {
    pub metadata: ObjectMetaView,
}

impl DeepView for ServiceAccount {
    type V = ServiceAccountView;

    open spec fn deep_view(&self) -> ServiceAccountView {
        ServiceAccountView {
            metadata: self.metadata.deep_view(),
        }
    }
}

/// Configuration as keys and values.
#[derive(Clone, Debug, PartialEq)]
pub struct ConfigMap {
    pub metadata: ObjectMeta,
    pub data: Option<StringMap>,
}

/// What a [`ConfigMap`] holds.
#[verifier::ext_equal]
pub struct ConfigMapView {
    pub metadata: ObjectMetaView,
    pub data: Option<Map<Seq<char>, Seq<char>>>,
}

impl DeepView for ConfigMap {
    type V = ConfigMapView;

    open spec fn deep_view(&self) -> ConfigMapView {
        ConfigMapView {
            metadata: self.metadata.deep_view(),
            data: self.data.deep_view(),
        }
    }
}

/// A port that a Service exposes.
#[derive(Clone, Debug, PartialEq)]
pub struct ServicePort {
    pub name: Option<String>,
    pub port: i32,
    pub protocol: Option<String>,
    pub target_port: Option<IntOrString>,
}

/// What a [`ServicePort`] holds.
#[verifier::ext_equal]
pub struct ServicePortView {
    pub name: Option<Seq<char>>,
    pub port: i32,
    pub protocol: Option<Seq<char>>,
    pub target_port: Option<IntOrString>,
}

impl DeepView for ServicePort {
    type V = ServicePortView;

    open spec fn deep_view(&self) -> ServicePortView {
        ServicePortView {
            name: self.name.deep_view(),
            port: self.port.deep_view(),
            protocol: self.protocol.deep_view(),
            target_port: self.target_port.deep_view(),
        }
    }
}

/// The pods behind a Service and how they are reached.
#[derive(Clone, Debug, PartialEq)]
pub struct ServiceSpec {
    pub cluster_ip: Option<String>,
    pub ports: Option<Vec<ServicePort>>,
    pub selector: Option<StringMap>,
    pub type_: Option<String>,
}

/// What a [`ServiceSpec`] holds.
#[verifier::ext_equal]
pub struct ServiceSpecView {
    pub cluster_ip: Option<Seq<char>>,
    pub ports: Option<Seq<ServicePortView>>,
    pub selector: Option<Map<Seq<char>, Seq<char>>>,
    pub type_: Option<Seq<char>>,
}

impl DeepView for ServiceSpec {
    type V = ServiceSpecView;

    open spec fn deep_view(&self) -> ServiceSpecView {
        ServiceSpecView {
            cluster_ip: self.cluster_ip.deep_view(),
            ports: self.ports.deep_view(),
            selector: self.selector.deep_view(),
            type_: self.type_.deep_view(),
        }
    }
}

/// A Service, by name.
#[derive(Clone, Debug, PartialEq)]
pub struct Service {
    pub metadata: ObjectMeta,
    pub spec: Option<ServiceSpec>,
}

/// What a [`Service`] holds.
#[verifier::ext_equal]
pub struct ServiceView {
    pub metadata: ObjectMetaView,
    pub spec: Option<ServiceSpecView>,
}

impl DeepView for Service {
    type V = ServiceView;

    open spec fn deep_view(&self) -> ServiceView {
        ServiceView {
            metadata: self.metadata.deep_view(),
            spec: self.spec.deep_view(),
        }
    }
}

} // verus!
