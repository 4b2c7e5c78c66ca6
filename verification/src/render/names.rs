//! The names and ports that the rendered objects share.

use vstd::prelude::*;

verus! {

/// The agent DaemonSet.
pub const AGENT_DS: &'static str = "cilium";

/// The `cilium-operator` Deployment.
pub const OPERATOR_DEPLOY: &'static str = "cilium-operator";

/// The ConfigMap that both read.
pub const CONFIG_MAP: &'static str = "cilium-config";

/// The identity of the agent.
pub const AGENT_SA: &'static str = "cilium";

/// The identity of `cilium-operator`.
pub const OPERATOR_SA: &'static str = "cilium-operator";

/// Port the agent serves `/healthz` on (host-network, so it is a host port).
pub const AGENT_HEALTH_PORT: i32 = 9879;

} // verus!
