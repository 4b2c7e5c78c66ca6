//! What a config change leaves behind can be found and removed.

use vstd::prelude::*;

use crate::modes::EffectiveConfigView;
use crate::render::object::RenderedView;

verus! {

use crate::render::lb::{
    self, all_variants_view, bgp_advertisement_view, bgp_cluster_view, bgp_peer_config_view,
    l2_policy_view, pool_view,
};
use crate::render::laws::key;
use crate::render::{cilium_cr, render_view};
use crate::text::{differs_first_at, precedes};

/// Every Cilium CR that one config renders is among the reapable objects of any
/// other, under the same kind, name and id: turning a feature off finds what
/// turning it on left behind.
pub proof fn law_every_cr_is_reapable(
    rendered_by: EffectiveConfigView,
    reaped_by: EffectiveConfigView,
    i: int,
) -> (j: int)
    requires
        0 <= i < render_view(rendered_by).len(),
        cilium_cr(render_view(rendered_by)[i]),
    ensures
        0 <= j < all_variants_view(reaped_by).len(),
        all_variants_view(reaped_by)[j].id() == render_view(rendered_by)[i].id(),
        key(all_variants_view(reaped_by)[j]) == key(render_view(rendered_by)[i]),
        all_variants_view(reaped_by)[j].api.plural == render_view(rendered_by)[i].api.plural,
{
    crate::render::laws::law_cilium_crs_come_last(rendered_by);
    let all = render_view(rendered_by);
    let crs = lb::render_view(rendered_by);
    let r = all[i];
    assert(r == crs[i - (all.len() - crs.len())]);
    if r == pool_view(rendered_by) {
        4
    } else if r == l2_policy_view(rendered_by) {
        3
    } else if r == bgp_peer_config_view(rendered_by) {
        2
    } else if r == bgp_cluster_view(rendered_by) {
        1
    } else {
        assert(r == bgp_advertisement_view(rendered_by));
        0
    }
}

/// Ids that differ in their kind stand as the kinds stand.
proof fn lemma_ids_stand_as_kinds(a: RenderedView, b: RenderedView, at: int)
    requires
        a.namespace is None,
        b.namespace is None,
        0 <= at < a.api.kind.len(),
        at < b.api.kind.len(),
        a.api.kind[at] < b.api.kind[at],
        a.api.kind.take(at) == b.api.kind.take(at),
    ensures
        precedes(a.id(), b.id()),
{
    let x = a.api.kind;
    let y = b.api.kind;
    assert forall|i: int| 0 <= i <= at implies a.id()[i] == x[i] && b.id()[i] == y[i] by {
        assert((x + "/"@)[i] == x[i]);
        assert((y + "/"@)[i] == y[i]);
    }
    assert forall|i: int| 0 <= i < at implies a.id()[i] == b.id()[i] by {
        assert(x.take(at)[i] == y.take(at)[i]);
    }
    assert(differs_first_at(a.id(), b.id(), at));
}

/// The reapable objects come in the order of their ids, and none comes twice.
pub proof fn law_reapable_objects_are_in_order(cfg: EffectiveConfigView, i: int, j: int)
    requires
        0 <= i < j < all_variants_view(cfg).len(),
    ensures
        precedes(all_variants_view(cfg)[i].id(), all_variants_view(cfg)[j].id()),
{
    let all = all_variants_view(cfg);
    reveal_strlit("CiliumBGPAdvertisement");
    reveal_strlit("CiliumBGPClusterConfig");
    reveal_strlit("CiliumBGPPeerConfig");
    reveal_strlit("CiliumL2AnnouncementPolicy");
    reveal_strlit("CiliumLoadBalancerIPPool");
    let at: int = if j <= 2 {
        9
    } else if i <= 2 {
        6
    } else {
        7
    };
    assert(all[i].api.kind.take(at) =~= all[j].api.kind.take(at));
    lemma_ids_stand_as_kinds(all[i], all[j], at);
}

/// A CR is deleted where its kind is served: at the group version of the config that
/// reaps it, for the whole cluster.
pub proof fn law_crs_are_reaped_where_they_are_served(cfg: EffectiveConfigView)
    ensures
        ({
            let all = all_variants_view(cfg);
            &&& all.len() == 5
            &&& all[0].api == bgp_advertisement_view(cfg).api && all[0].namespace is None
            &&& all[1].api == bgp_cluster_view(cfg).api && all[1].namespace is None
            &&& all[2].api == bgp_peer_config_view(cfg).api && all[2].namespace is None
            &&& all[3].api == l2_policy_view(cfg).api && all[3].namespace is None
            &&& all[4].api == pool_view(cfg).api && all[4].namespace is None
        }),
{
}

} // verus!
