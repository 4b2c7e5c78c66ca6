//! What holds of the Cilium CRs.

use vstd::prelude::*;

use crate::crd::Announce;
use crate::modes::EffectiveConfigView;
use crate::render::object::RenderedView;
use crate::render::value::ValueView;

verus! {

use crate::render::lb;
use crate::render::metadata::{common_labels_view, overlaid};
use crate::render::object::BodyView;
use crate::render::version::minor_of;
use crate::text::{dashed, signed_decimal};

/// A peer name is safe in DNS: no dot and no colon of an address is left in it.
pub proof fn law_peer_names_are_dns_safe(address: Seq<char>)
    ensures
        forall|i: int|
            0 <= i < dashed(address).len() ==> #[trigger] dashed(address)[i] != '.' && dashed(
                address,
            )[i] != ':',
        dashed(address).len() == address.len(),
{
}

/// There is one peer for each neighbour, in their order, and each points at the
/// peer config that is rendered.
pub proof fn law_a_peer_for_each_neighbour(cfg: EffectiveConfigView)
    ensures
        lb::instance_view(cfg)->Object_0[2].0 == "peers"@,
        lb::instance_view(cfg)->Object_0[2].1->List_0.len() == cfg.bgp_peers.len(),
        forall|i: int|
            0 <= i < cfg.bgp_peers.len() ==> #[trigger] lb::instance_view(
                cfg,
            )->Object_0[2].1->List_0[i] == lb::peer_view(cfg.bgp_peers[i]),
        forall|i: int|
            0 <= i < cfg.bgp_peers.len() ==> (#[trigger] lb::peer_view(
                cfg.bgp_peers[i],
            )->Object_0[3]) == (
                "peerConfigRef"@,
                ValueView::Object(
                    seq![("name"@, ValueView::Text(lb::bgp_peer_config_view(cfg).name()))],
                ),
            ),
{
}

/// The peer config selects the advertisement: the label it asks for is on it.
pub proof fn law_the_advertisement_is_selected(cfg: EffectiveConfigView)
    ensures
        lb::family_view()->Object_0[2] == ("advertisements"@, lb::advertised_view()),
        lb::advertised_view()->Object_0[0].1->Object_0 == seq![
            (lb::ADVERTISE_LABEL_KEY@, ValueView::Text(lb::ADVERTISE_LABEL_VALUE@)),
        ],
        lb::bgp_advertisement_view(cfg).obj.metadata.labels->0.contains_key(
            lb::ADVERTISE_LABEL_KEY@,
        ),
        lb::bgp_advertisement_view(cfg).obj.metadata.labels->0[lb::ADVERTISE_LABEL_KEY@]
            == lb::ADVERTISE_LABEL_VALUE@,
{
    let extra = seq![(lb::ADVERTISE_LABEL_KEY@, lb::ADVERTISE_LABEL_VALUE@)];
    assert(extra.drop_last() =~= seq![]);
    assert(overlaid(common_labels_view(cfg), extra) == overlaid(
        common_labels_view(cfg),
        extra.drop_last(),
    ).insert(lb::ADVERTISE_LABEL_KEY@, lb::ADVERTISE_LABEL_VALUE@));
}

/// The L2 policy is served at the alpha version whatever the Cilium release; all
/// other CRs go with the release.
pub proof fn law_group_versions(cfg: EffectiveConfigView)
    ensures
        lb::l2_policy_view(cfg).api.version == "v2alpha1"@,
        lb::pool_view(cfg).api.version == lb::api_version_of(cfg.version),
        lb::bgp_cluster_view(cfg).api.version == lb::api_version_of(cfg.version),
        lb::bgp_peer_config_view(cfg).api.version == lb::api_version_of(cfg.version),
        lb::bgp_advertisement_view(cfg).api.version == lb::api_version_of(cfg.version),
{
}

/// The pool has one block for each configured CIDR, in their order.
pub proof fn law_a_block_for_each_cidr(cfg: EffectiveConfigView)
    ensures
        lb::pool_view(cfg).obj.body matches BodyView::Custom { spec } && {
            let blocks = spec->Object_0[0].1->List_0;
            &&& spec->Object_0[0].0 == "blocks"@
            &&& blocks.len() == cfg.lb_pools.len()
            &&& forall|i: int|
                0 <= i < blocks.len() ==> #[trigger] blocks[i] == lb::block_view(cfg.lb_pools[i])
        },
{
}

// --- what the CRs ask for --------------------------------------------------

/// A JSON object with this member.
pub open spec fn has(v: ValueView, name: Seq<char>, value: ValueView) -> bool {
    v is Object && exists|i: int|
        0 <= i < v->Object_0.len() && #[trigger] v->Object_0[i] == (name, value)
}

/// The spec of a CR.
pub open spec fn spec_of(r: RenderedView) -> ValueView {
    r.obj.body->Custom_spec
}

/// A selector that asks for no label, and so selects everything.
pub open spec fn selects_all(v: ValueView) -> bool {
    v is Object && v->Object_0.len() == 1 && has(v, "matchLabels"@, ValueView::Object(seq![]))
}

/// With L2 announcements, every node answers for the VIPs and the external
/// addresses of every Service.
pub proof fn law_l2_announces_every_vip(cfg: EffectiveConfigView)
    ensures
        ({
            let spec = spec_of(lb::l2_policy_view(cfg));
            &&& has(spec, "loadBalancerIPs"@, ValueView::Bool(true))
            &&& has(spec, "externalIPs"@, ValueView::Bool(true))
            &&& exists|nodes: ValueView| #[trigger]
                has(spec, "nodeSelector"@, nodes) && selects_all(nodes)
            &&& exists|services: ValueView| #[trigger]
                has(spec, "serviceSelector"@, services) && selects_all(services)
            &&& spec->Object_0.len() == 4
        }),
{
    let spec = spec_of(lb::l2_policy_view(cfg));
    let all = lb::select_all_view();
    assert(all->Object_0[0] == ("matchLabels"@, ValueView::Object(seq![])));
    assert(spec->Object_0[0] == ("nodeSelector"@, all));
    assert(spec->Object_0[1] == ("serviceSelector"@, all));
    assert(spec->Object_0[2] == ("externalIPs"@, ValueView::Bool(true)));
    assert(spec->Object_0[3] == ("loadBalancerIPs"@, ValueView::Bool(true)));
    assert(has(spec, "nodeSelector"@, all) && has(spec, "serviceSelector"@, all));
}

/// With BGP, the pod CIDRs are advertised, and of every Service the addresses that
/// LB-IPAM gave it; nothing else is.
pub proof fn law_bgp_advertises_pods_and_vips(cfg: EffectiveConfigView)
    ensures
        ({
            let spec = spec_of(lb::bgp_advertisement_view(cfg));
            exists|items: Seq<ValueView>| {
                let pods = items[0];
                let services = items[1];
                &&& #[trigger] has(spec, "advertisements"@, ValueView::List(items))
                &&& items.len() == 2
                &&& has(pods, "advertisementType"@, ValueView::Text("PodCIDR"@))
                &&& pods->Object_0.len() == 1
                &&& has(services, "advertisementType"@, ValueView::Text("Service"@))
                &&& services->Object_0.len() == 3
                &&& has(
                    services,
                    "service"@,
                    ValueView::Object(
                        seq![
                            (
                                "addresses"@,
                                ValueView::List(seq![ValueView::Text("LoadBalancerIP"@)]),
                            ),
                        ],
                    ),
                )
                &&& exists|which: ValueView| #[trigger]
                    has(services, "selector"@, which) && selects_all(which)
            }
        }),
        spec_of(lb::bgp_advertisement_view(cfg))->Object_0.len() == 1,
{
    let spec = spec_of(lb::bgp_advertisement_view(cfg));
    let pods = lb::advertise_pods_view();
    let services = lb::advertise_services_view();
    let all = lb::select_all_view();
    assert(all->Object_0[0] == ("matchLabels"@, ValueView::Object(seq![])));
    assert(spec->Object_0[0] == ("advertisements"@, ValueView::List(seq![pods, services])));
    assert(pods->Object_0[0] == ("advertisementType"@, ValueView::Text("PodCIDR"@)));
    assert(services->Object_0[0] == ("advertisementType"@, ValueView::Text("Service"@)));
    assert(services->Object_0[1].0 == "service"@);
    assert(services->Object_0[2] == ("selector"@, all));
    assert(has(services, "selector"@, all));
    assert(has(
        services,
        "service"@,
        ValueView::Object(
            seq![("addresses"@, ValueView::List(seq![ValueView::Text("LoadBalancerIP"@)]))],
        ),
    ));
    let items = seq![pods, services];
    assert(has(spec, "advertisements"@, ValueView::List(items)) && items[0] == pods && items[1]
        == services);
}

/// With BGP there is one instance, of the local autonomous system, on every node;
/// it dials each neighbour at its address and in its autonomous system.
pub proof fn law_bgp_dials_every_neighbour(cfg: EffectiveConfigView)
    ensures
        ({
            let spec = spec_of(lb::bgp_cluster_view(cfg));
            exists|instances: Seq<ValueView>, peers: Seq<ValueView>| {
                let instance = instances[0];
                &&& #[trigger] has(spec, "bgpInstances"@, ValueView::List(instances))
                &&& instances.len() == 1
                &&& instance->Object_0.len() == 3
                &&& has(
                    instance,
                    "name"@,
                    ValueView::Text("asn"@ + signed_decimal(cfg.bgp_local_asn as int)),
                )
                &&& has(instance, "localASN"@, ValueView::Int(cfg.bgp_local_asn))
                &&& #[trigger] has(instances[0], "peers"@, ValueView::List(peers))
                &&& peers.len() == cfg.bgp_peers.len()
                &&& forall|i: int|
                    0 <= i < peers.len() ==> dials(#[trigger] peers[i], cfg.bgp_peers[i])
            }
        }),
        spec_of(lb::bgp_cluster_view(cfg))->Object_0.len() == 1,
{
    let spec = spec_of(lb::bgp_cluster_view(cfg));
    let instance = lb::instance_view(cfg);
    let peers = cfg.bgp_peers.map_values(|p: (Seq<char>, i64)| lb::peer_view(p));
    assert(spec->Object_0[0] == ("bgpInstances"@, ValueView::List(seq![instance])));
    assert(instance->Object_0[0].0 == "name"@ && instance->Object_0[1].0 == "localASN"@);
    assert(instance->Object_0[2] == ("peers"@, ValueView::List(peers)));
    let instances = seq![instance];
    assert(has(spec, "bgpInstances"@, ValueView::List(instances)));
    assert(has(instances[0], "peers"@, ValueView::List(peers)));
    assert forall|i: int| 0 <= i < peers.len() implies dials(
        #[trigger] peers[i],
        cfg.bgp_peers[i],
    ) by {
        let p = peers[i];
        assert(p->Object_0[0].0 == "name"@ && p->Object_0[1].0 == "peerAddress"@
            && p->Object_0[2].0 == "peerASN"@ && p->Object_0[3].0 == "peerConfigRef"@);
    }
}

/// A peer for a neighbour, under a name made of its address.
pub open spec fn dials(peer: ValueView, neighbour: (Seq<char>, i64)) -> bool {
    &&& peer->Object_0.len() == 4
    &&& has(peer, "name"@, ValueView::Text("peer-"@ + dashed(neighbour.0)))
    &&& has(peer, "peerAddress"@, ValueView::Text(neighbour.0))
    &&& has(peer, "peerASN"@, ValueView::Int(neighbour.1))
    &&& has(
        peer,
        "peerConfigRef"@,
        ValueView::Object(seq![("name"@, ValueView::Text("storm-peers"@))]),
    )
}

/// The peers speak IPv4 unicast, and take the advertisements labelled
/// `advertise: storm`, which is what the advertisement is labelled.
pub proof fn law_peers_speak_ipv4_unicast(cfg: EffectiveConfigView)
    ensures
        ({
            let spec = spec_of(lb::bgp_peer_config_view(cfg));
            exists|families: Seq<ValueView>| {
                let family = families[0];
                &&& #[trigger] has(spec, "families"@, ValueView::List(families))
                &&& families.len() == 1
                &&& family->Object_0.len() == 3
                &&& has(family, "afi"@, ValueView::Text("ipv4"@))
                &&& has(family, "safi"@, ValueView::Text("unicast"@))
                &&& has(
                    family,
                    "advertisements"@,
                    ValueView::Object(
                        seq![
                            (
                                "matchLabels"@,
                                ValueView::Object(
                                    seq![("advertise"@, ValueView::Text("storm"@))],
                                ),
                            ),
                        ],
                    ),
                )
            }
        }),
        spec_of(lb::bgp_peer_config_view(cfg))->Object_0.len() == 1,
        lb::bgp_advertisement_view(cfg).obj.metadata.labels->0.contains_key("advertise"@),
        lb::bgp_advertisement_view(cfg).obj.metadata.labels->0["advertise"@] == "storm"@,
{
    law_the_advertisement_is_selected(cfg);
    let spec = spec_of(lb::bgp_peer_config_view(cfg));
    let family = lb::family_view();
    assert(spec->Object_0[0] == ("families"@, ValueView::List(seq![family])));
    let families = seq![family];
    assert(has(spec, "families"@, ValueView::List(families)) && families[0] == family);
    assert(family->Object_0[0].0 == "afi"@ && family->Object_0[1].0 == "safi"@
        && family->Object_0[2].0 == "advertisements"@);
}

/// The pool has one block for each configured CIDR, in their order, and each block
/// is that CIDR.
pub proof fn law_the_pool_holds_the_cidrs(cfg: EffectiveConfigView)
    ensures
        ({
            let spec = spec_of(lb::pool_view(cfg));
            exists|blocks: Seq<ValueView>| {
                &&& #[trigger] has(spec, "blocks"@, ValueView::List(blocks))
                &&& blocks.len() == cfg.lb_pools.len()
                &&& forall|i: int|
                    0 <= i < blocks.len() ==> #[trigger] blocks[i] == ValueView::Object(
                        seq![("cidr"@, ValueView::Text(cfg.lb_pools[i]))],
                    )
            }
        }),
        spec_of(lb::pool_view(cfg))->Object_0.len() == 1,
{
    let spec = spec_of(lb::pool_view(cfg));
    let blocks = cfg.lb_pools.map_values(|c: Seq<char>| lb::block_view(c));
    assert(spec->Object_0[0] == ("blocks"@, ValueView::List(blocks)));
    assert(has(spec, "blocks"@, ValueView::List(blocks)));
}

/// A Cilium CR of this kind, for the whole cluster.
pub open spec fn served_as(
    r: RenderedView,
    version: Seq<char>,
    kind: Seq<char>,
    plural: Seq<char>,
) -> bool {
    &&& r.api.group == "cilium.io"@
    &&& r.api.version == version
    &&& r.api.api_version == "cilium.io"@ + "/"@ + version
    &&& r.api.kind == kind
    &&& r.api.plural == plural
    &&& r.namespace is None
    &&& r.obj.metadata.namespace is None
    &&& r.obj.types matches Some(types) && types.kind == kind && types.api_version
        == r.api.api_version
    &&& r.obj.body is Custom
}

/// Where each CR is served. All but the L2 policy are at `v2` from Cilium 1.17 on,
/// and at `v2alpha1` before; the L2 policy stays at `v2alpha1`.
pub proof fn law_where_the_crs_are_served(cfg: EffectiveConfigView)
    ensures
        ({
            let version = match minor_of(cfg.version) {
                Some(m) => if m < 17 {
                    "v2alpha1"@
                } else {
                    "v2"@
                },
                None => "v2"@,
            };
            &&& served_as(
                lb::pool_view(cfg),
                version,
                "CiliumLoadBalancerIPPool"@,
                "ciliumloadbalancerippools"@,
            )
            &&& served_as(
                lb::l2_policy_view(cfg),
                "v2alpha1"@,
                "CiliumL2AnnouncementPolicy"@,
                "ciliuml2announcementpolicies"@,
            )
            &&& served_as(
                lb::bgp_cluster_view(cfg),
                version,
                "CiliumBGPClusterConfig"@,
                "ciliumbgpclusterconfigs"@,
            )
            &&& served_as(
                lb::bgp_peer_config_view(cfg),
                version,
                "CiliumBGPPeerConfig"@,
                "ciliumbgppeerconfigs"@,
            )
            &&& served_as(
                lb::bgp_advertisement_view(cfg),
                version,
                "CiliumBGPAdvertisement"@,
                "ciliumbgpadvertisements"@,
            )
        }),
{
}

/// The CRs of a config are these, as they stand above.
pub proof fn law_the_crs_of_a_config(cfg: EffectiveConfigView)
    ensures
        !cfg.lb_ipam ==> lb::render_view(cfg).len() == 0,
        cfg.lb_ipam ==> lb::render_view(cfg).len() > 0 && lb::render_view(cfg)[0]
            == lb::pool_view(cfg),
        cfg.lb_ipam && cfg.announce == Announce::Off ==> lb::render_view(cfg).len() == 1,
        cfg.lb_ipam && cfg.announce == Announce::L2 ==> lb::render_view(cfg).len() == 2
            && lb::render_view(cfg)[1] == lb::l2_policy_view(cfg),
        cfg.lb_ipam && cfg.announce == Announce::Bgp ==> {
            &&& lb::render_view(cfg).len() == 4
            &&& lb::render_view(cfg)[1] == lb::bgp_cluster_view(cfg)
            &&& lb::render_view(cfg)[2] == lb::bgp_peer_config_view(cfg)
            &&& lb::render_view(cfg)[3] == lb::bgp_advertisement_view(cfg)
        },
{
}

/// A peer name keeps every letter of the address that is no separator, and has a
/// dash for each that is.
pub proof fn law_peer_names_follow_the_address(address: Seq<char>)
    ensures
        dashed(address).len() == address.len(),
        forall|i: int|
            0 <= i < address.len() ==> #[trigger] dashed(address)[i] == if address[i] == '.'
                || address[i] == ':' {
                '-'
            } else {
                address[i]
            },
{
}

} // verus!
