//! Condition types, matching cluster-operator semantics.

use vstd::prelude::*;

verus! {

pub const AVAILABLE: &'static str = "Available";
pub const PROGRESSING: &'static str = "Progressing";
pub const DEGRADED: &'static str = "Degraded";

} // verus!
