//! The logic of a cluster network operator: it installs Cilium from a single
//! `Network` custom resource and keeps it running.
//!
//! A pass goes from the resource to the cluster and back:
//!
//! - [`crd`] is the resource, sparse as it is written; [`modes`] fills it in and
//!   validates it; [`immutable`] refuses what cannot change under a running
//!   dataplane.
//! - [`render`] turns the filled-in config into the objects of the install, whose
//!   types are in [`k8s`].
//! - [`apply`] and [`status`] say what to ask the apiserver, one request after the
//!   other; [`health`] says what the cluster's state amounts to.
//! - [`controller`] runs one pass over all of it.
//!
//! Nothing in here talks to a cluster. Where a pass has to, it hands out what it
//! wants done as a value and takes the outcome back as one.
//!
//! Each type has a mathematical view, its `deep_view`, and each function's
//! contract says which view comes out. What holds across functions is stated as
//! proof functions, named `law_*`, beside the functions that they are about.

pub mod address;
pub mod apply;
pub mod controller;
pub mod crd;
pub mod health;
pub mod immutable;
pub mod k8s;
pub mod kube_error;
pub mod modes;
pub mod render;
pub mod status;
pub mod string_map;
pub mod text;
