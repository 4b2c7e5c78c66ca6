//! The Kubernetes objects that make up an install, with the fields that the
//! render sets. Every type comes with the mathematical view that the contracts
//! speak of.

pub mod meta;
pub mod pod;
pub mod rbac;
pub mod resource;
pub mod workload;
