//! Rendering: [`EffectiveConfig`] -> the concrete set of Kubernetes objects
//! that make up a Cilium install.
//!
//! The render is **pure and deterministic** — same config in, byte-identical
//! objects out. Nothing here talks to an apiserver.
//!
//! Objects come back in dependency order (RBAC -> config -> workloads -> Cilium
//! CRs), because the Cilium CRDs that back the last group are created by
//! `cilium-operator` itself and therefore do not exist until it runs.

use vstd::prelude::*;

use crate::modes::{EffectiveConfig, EffectiveConfigView};
use crate::text::str_eq;

pub mod agent;
pub mod api;
pub mod config;
pub mod envoy;
pub mod laws;
pub mod lb;
pub mod metadata;
pub mod names;
pub mod object;
pub mod operator;
pub mod rbac;
pub mod util;
pub mod value;
pub mod version;

pub use self::metadata::{cluster_meta, common_labels, meta, FIELD_MANAGER};
pub use self::names::{
    AGENT_DS, AGENT_HEALTH_PORT, AGENT_SA, CONFIG_MAP, OPERATOR_DEPLOY, OPERATOR_SA,
};
pub use self::object::{custom, typed, Rendered, RenderedView};

verus! {

/// What is installed whatever the config says: the identities and their roles,
/// the configuration, the agent and `cilium-operator`.
pub open spec fn core_view(cfg: EffectiveConfigView) -> Seq<RenderedView> {
    rbac::render_view(cfg) + rbac::render_namespaced_view(cfg) + seq![
        config::render_view(cfg),
        agent::render_view(cfg),
        operator::render_view(cfg),
    ]
}

/// The full object set of a config, in apply order.
pub open spec fn render_view(cfg: EffectiveConfigView) -> Seq<RenderedView> {
    core_view(cfg) + envoy::render_view(cfg) + lb::render_view(cfg)
}

fn extend(out: &mut Vec<Rendered>, more: Vec<Rendered>)
    ensures
        final(out).deep_view() == old(out).deep_view() + more.deep_view(),
{
    let ghost before = out.deep_view();
    let ghost added = more.deep_view();
    let mut more = more;
    out.append(&mut more);
    assert(out.deep_view() =~= before + added);
}

/// Render the full object set for a resolved config, in apply order.
pub fn render(cfg: &EffectiveConfig) -> (r: Vec<Rendered>)
    ensures
        r.deep_view() == render_view(cfg.deep_view()),
{
    let mut out = rbac::render(cfg);
    extend(&mut out, rbac::render_namespaced(cfg));
    let workloads = vec![config::render(cfg), agent::render(cfg), operator::render(cfg)];
    assert(workloads.deep_view() =~= seq![
        config::render_view(cfg.deep_view()),
        agent::render_view(cfg.deep_view()),
        operator::render_view(cfg.deep_view()),
    ]);
    extend(&mut out, workloads);
    extend(&mut out, envoy::render(cfg));
    // Backed by CRDs that cilium-operator installs, so these are applied last
    // and tolerated as missing until it has.
    extend(&mut out, lb::render(cfg));
    out
}

/// Every object that *some* config would render and another would not. The
/// reconciler deletes any of these that the current [`render`] does not hold, so
/// that turning a feature off actually removes its objects instead of orphaning
/// them.
///
/// Only the Cilium CRs need listing — the RBAC, config and workloads are
/// rendered unconditionally and are garbage-collected with the `Network`.
pub fn reapable(cfg: &EffectiveConfig) -> (r: Vec<Rendered>)
    ensures
        r.deep_view() == lb::all_variants_view(cfg.deep_view()),
{
    lb::all_variants(cfg)
}

/// The subset of [`render`] whose CRDs are owned by `cilium-operator` and so may
/// legitimately 404 on a fresh install.
pub fn is_cilium_cr(r: &Rendered) -> (b: bool)
    ensures
        b == cilium_cr(r.deep_view()),
{
    str_eq(r.api.group.as_str(), lb::CILIUM_GROUP)
}

/// An object of Cilium's own API group.
pub open spec fn cilium_cr(r: RenderedView) -> bool {
    r.api.group == lb::CILIUM_GROUP@
}

} // verus!
