//! What holds of every resolved config.

use vstd::prelude::*;

use crate::crd::{
    Announce, EncryptionType, HostRouting, IpamMode, Mode, NetworkSpecView, NetworkView, RoutingMode,
};
use crate::modes::EffectiveConfigView;

verus! {

use crate::address::{address_reading, cidr_reading, CidrReadingView};
use crate::modes::validation::{
    bgp_complaint, carving_complaint, cidr_complaint, cidrs_complaint, endpoint_complaint,
    first_from, identity_complaint, load_balancer_complaint, mask_complaint, peer_complaint,
    readings_of, some_cidrs_complaint, violation, violation_of, ReadingsView, ValidationErrorView,
};
use crate::modes::{
    bgp_of, cilium_of, default_envoy_image, effective, effective_network, encryption_of, envoy_of,
    ipam_of, load_balancer_of, mode_row, routing_of,
};
use crate::text::{blank, decimal, signed_decimal};

// --- what a spec asks for -------------------------------------------------

/// `spec.cilium.ipam.mode`, where it is set.
pub open spec fn ipam_asked(spec: NetworkSpecView) -> Option<IpamMode> {
    match spec.cilium {
        Some(c) => match c.ipam {
            Some(x) => x.mode,
            None => None,
        },
        None => None,
    }
}

/// `spec.cilium.ipam.clusterPoolIpv4MaskSize`, where it is set.
pub open spec fn mask_size_asked(spec: NetworkSpecView) -> Option<u8> {
    match spec.cilium {
        Some(c) => match c.ipam {
            Some(x) => x.cluster_pool_ipv4_mask_size,
            None => None,
        },
        None => None,
    }
}

/// `spec.cilium.routing.mode`, where it is set.
pub open spec fn routing_asked(spec: NetworkSpecView) -> Option<RoutingMode> {
    match spec.cilium {
        Some(c) => match c.routing {
            Some(x) => x.mode,
            None => None,
        },
        None => None,
    }
}

/// `spec.cilium.encryption.type`, where it is set.
pub open spec fn encryption_asked(spec: NetworkSpecView) -> Option<EncryptionType> {
    match spec.cilium {
        Some(c) => match c.encryption {
            Some(x) => x.kind,
            None => None,
        },
        None => None,
    }
}

/// `spec.cilium.loadBalancer.ipam`, where it is set.
pub open spec fn lb_ipam_asked(spec: NetworkSpecView) -> Option<bool> {
    match spec.cilium {
        Some(c) => match c.load_balancer {
            Some(x) => x.ipam,
            None => None,
        },
        None => None,
    }
}

/// `spec.cilium.loadBalancer.pools`, where it is set.
pub open spec fn pools_asked(spec: NetworkSpecView) -> Option<Seq<Seq<char>>> {
    match spec.cilium {
        Some(c) => match c.load_balancer {
            Some(x) => x.pools,
            None => None,
        },
        None => None,
    }
}

/// `spec.cilium.loadBalancer.announce`, where it is set.
pub open spec fn announce_asked(spec: NetworkSpecView) -> Option<Announce> {
    match spec.cilium {
        Some(c) => match c.load_balancer {
            Some(x) => x.announce,
            None => None,
        },
        None => None,
    }
}

/// `spec.cilium.loadBalancer.bgp.localAsn`, where it is set.
pub open spec fn local_asn_asked(spec: NetworkSpecView) -> Option<i64> {
    match spec.cilium {
        Some(c) => match c.load_balancer {
            Some(x) => match x.bgp {
                Some(y) => y.local_asn,
                None => None,
            },
            None => None,
        },
        None => None,
    }
}

/// `spec.cilium.envoy.enabled`, where it is set.
pub open spec fn envoy_asked(spec: NetworkSpecView) -> Option<bool> {
    match spec.cilium {
        Some(c) => match c.envoy {
            Some(x) => x.enabled,
            None => None,
        },
        None => None,
    }
}

/// `spec.cilium.envoy.image`, where it is set.
pub open spec fn envoy_image_asked(spec: NetworkSpecView) -> Option<Seq<char>> {
    match spec.cilium {
        Some(c) => match c.envoy {
            Some(x) => x.image,
            None => None,
        },
        None => None,
    }
}

/// `spec.cilium.version`, where it is set.
pub open spec fn version_asked(spec: NetworkSpecView) -> Option<Seq<char>> {
    match spec.cilium {
        Some(c) => c.version,
        None => None,
    }
}

/// `spec.cilium.registry`, where it is set.
pub open spec fn registry_asked(spec: NetworkSpecView) -> Option<Seq<char>> {
    match spec.cilium {
        Some(c) => c.registry,
        None => None,
    }
}

/// `spec.cilium.mtu`, where it is set.
pub open spec fn mtu_asked(spec: NetworkSpecView) -> Option<i32> {
    match spec.cilium {
        Some(c) => c.mtu,
        None => None,
    }
}

/// `spec.cilium.kubeProxyReplacement`, where it is set.
pub open spec fn kube_proxy_replacement_asked(spec: NetworkSpecView) -> Option<bool> {
    match spec.cilium {
        Some(c) => c.kube_proxy_replacement,
        None => None,
    }
}

/// `spec.cilium.hostRouting`, where it is set.
pub open spec fn host_routing_asked(spec: NetworkSpecView) -> Option<HostRouting> {
    match spec.cilium {
        Some(c) => c.host_routing,
        None => None,
    }
}

/// `spec.cilium.k8sServiceHost`, where it is set.
pub open spec fn k8s_service_host_asked(spec: NetworkSpecView) -> Option<Seq<char>> {
    match spec.cilium {
        Some(c) => c.k8s_service_host,
        None => None,
    }
}

/// `spec.cilium.k8sServicePort`, where it is set.
pub open spec fn k8s_service_port_asked(spec: NetworkSpecView) -> Option<u16> {
    match spec.cilium {
        Some(c) => c.k8s_service_port,
        None => None,
    }
}

/// `spec.cilium.clusterName`, where it is set.
pub open spec fn cluster_name_asked(spec: NetworkSpecView) -> Option<Seq<char>> {
    match spec.cilium {
        Some(c) => c.cluster_name,
        None => None,
    }
}

/// `spec.cilium.clusterId`, where it is set.
pub open spec fn cluster_id_asked(spec: NetworkSpecView) -> Option<u32> {
    match spec.cilium {
        Some(c) => c.cluster_id,
        None => None,
    }
}

/// The mode table, cell by cell: a field that the spec sets has the value it set,
/// and one that it leaves out has the value of its mode. Only routing, encryption,
/// LB-IPAM and announcing depend on the mode.
pub proof fn law_the_mode_table(spec: NetworkSpecView)
    ensures
        ({
            let cfg = effective(spec);
            let mode = spec.mode;
            &&& cfg.mode == mode
            &&& cfg.routing == match routing_asked(spec) {
                Some(v) => v,
                None => if mode == Mode::Native || mode == Mode::Bgp {
                    RoutingMode::Native
                } else {
                    RoutingMode::Tunnel
                },
            }
            &&& cfg.encryption == match encryption_asked(spec) {
                Some(v) => v,
                None => if mode == Mode::Encrypted {
                    EncryptionType::Wireguard
                } else {
                    EncryptionType::Off
                },
            }
            &&& cfg.lb_ipam == match lb_ipam_asked(spec) {
                Some(v) => v,
                None => mode == Mode::Bgp || mode == Mode::BareMetal,
            }
            &&& cfg.announce == match announce_asked(spec) {
                Some(v) => v,
                None => match mode {
                    Mode::Bgp => Announce::Bgp,
                    Mode::BareMetal => Announce::L2,
                    _ => Announce::Off,
                },
            }
            &&& cfg.ipam == match ipam_asked(spec) {
                Some(v) => v,
                None => IpamMode::ClusterPool,
            }
            &&& cfg.cluster_pool_ipv4_mask_size == match mask_size_asked(spec) {
                Some(v) => v,
                None => 24u8,
            }
            &&& cfg.mtu == match mtu_asked(spec) {
                Some(v) => v,
                None => 0i32,
            }
            &&& cfg.kube_proxy_replacement == match kube_proxy_replacement_asked(spec) {
                Some(v) => v,
                None => true,
            }
            &&& cfg.host_routing == match host_routing_asked(spec) {
                Some(v) => v,
                None => HostRouting::Bpf,
            }
        }),
{
}

/// Every other field has the value that the spec sets, and otherwise the same in
/// every mode. The networks are the spec's own.
pub proof fn law_the_other_defaults(spec: NetworkSpecView)
    ensures
        ({
            let cfg = effective(spec);
            &&& cfg.network_name == "cluster"@
            &&& cfg.network_uid is None
            &&& cfg.cluster_network == spec.cluster_network
            &&& cfg.service_network == spec.service_network
            &&& cfg.version == match version_asked(spec) {
                Some(v) => v,
                None => "1.19.6"@,
            }
            &&& cfg.registry == match registry_asked(spec) {
                Some(v) => v,
                None => "quay.io/cilium"@,
            }
            &&& cfg.k8s_service_host == match k8s_service_host_asked(spec) {
                Some(v) => v,
                None => Seq::empty(),
            }
            &&& cfg.k8s_service_port == match k8s_service_port_asked(spec) {
                Some(v) => v,
                None => 6443u16,
            }
            &&& cfg.lb_pools == match pools_asked(spec) {
                Some(v) => v,
                None => Seq::empty(),
            }
            &&& cfg.bgp_local_asn == match local_asn_asked(spec) {
                Some(v) => v,
                None => 0i64,
            }
            &&& cfg.envoy == match envoy_asked(spec) {
                Some(v) => v,
                None => false,
            }
            &&& cfg.envoy_image == match envoy_image_asked(spec) {
                Some(v) => v,
                None => cfg.registry + "/cilium-envoy:"@
                    + "v1.36.9-1782267392-edeb3f2af56c37c407efa1f63f0b32f595399bbc"@,
            }
            &&& cfg.cluster_name == match cluster_name_asked(spec) {
                Some(v) => v,
                None => "default"@,
            }
            &&& cfg.cluster_id == match cluster_id_asked(spec) {
                Some(v) => v,
                None => 0u32,
            }
        }),
{
}

/// The neighbours are those that the spec lists, in its order; none without BGP
/// settings.
pub proof fn law_the_peers_are_the_specs(spec: NetworkSpecView)
    ensures
        ({
            let peers = effective(spec).bgp_peers;
            match spec.cilium {
                Some(c) => match c.load_balancer {
                    Some(lb) => match lb.bgp {
                        Some(bgp) => peers.len() == bgp.peers.len() && forall|i: int|
                            0 <= i < peers.len() ==> (#[trigger] peers[i]).0 == bgp.peers[i].address
                                && peers[i].1 == bgp.peers[i].asn,
                        None => peers.len() == 0,
                    },
                    None => peers.len() == 0,
                },
                None => peers.len() == 0,
            }
        }),
{
}

/// A live object resolves as its spec does, under its own name and uid.
pub proof fn law_a_live_object_resolves_as_its_spec(net: NetworkView)
    ensures
        ({
            let cfg = effective_network(net);
            &&& cfg.network_uid == net.metadata.uid
            &&& net.metadata.name matches Some(name) ==> cfg.network_name == name
            &&& net.metadata.name is None ==> cfg.network_name == "cluster"@
            &&& (EffectiveConfigView {
                network_name: "cluster"@,
                network_uid: None,
                ..cfg
            }) == effective(net.spec)
        }),
{
}

/// Images are tagged with the version, under one leading `v` at least: a version
/// that has it keeps it, and any other gets it.
pub proof fn law_images_carry_the_version(cfg: EffectiveConfigView)
    ensures
        ({
            let tag = if cfg.version.len() > 0 && cfg.version[0] == 'v' {
                cfg.version
            } else {
                seq!['v'] + cfg.version
            };
            &&& cfg.agent_image() == cfg.registry + "/cilium:"@ + tag
            &&& cfg.operator_image() == cfg.registry + "/operator-generic:"@ + tag
        }),
{
    reveal_strlit("v");
    assert("v"@ =~= seq!['v']);
}

/// A spec that sets a field gets the value it set, whatever its mode.
pub proof fn law_explicit_fields_override_the_mode(spec: NetworkSpecView)
    ensures
        ({
            let c = cilium_of(spec);
            let lb = load_balancer_of(spec);
            let cfg = effective(spec);
            &&& c.version matches Some(v) ==> cfg.version == v
            &&& c.registry matches Some(v) ==> cfg.registry == v
            &&& ipam_of(spec).mode matches Some(v) ==> cfg.ipam == v
            &&& ipam_of(spec).cluster_pool_ipv4_mask_size matches Some(v)
                ==> cfg.cluster_pool_ipv4_mask_size == v
            &&& routing_of(spec).mode matches Some(v) ==> cfg.routing == v
            &&& c.mtu matches Some(v) ==> cfg.mtu == v
            &&& c.kube_proxy_replacement matches Some(v) ==> cfg.kube_proxy_replacement == v
            &&& c.host_routing matches Some(v) ==> cfg.host_routing == v
            &&& encryption_of(spec).kind matches Some(v) ==> cfg.encryption == v
            &&& c.k8s_service_host matches Some(v) ==> cfg.k8s_service_host == v
            &&& c.k8s_service_port matches Some(v) ==> cfg.k8s_service_port == v
            &&& lb.ipam matches Some(v) ==> cfg.lb_ipam == v
            &&& lb.pools matches Some(v) ==> cfg.lb_pools == v
            &&& lb.announce matches Some(v) ==> cfg.announce == v
            &&& bgp_of(spec).local_asn matches Some(v) ==> cfg.bgp_local_asn == v
            &&& envoy_of(spec).enabled matches Some(v) ==> cfg.envoy == v
            &&& envoy_of(spec).image matches Some(v) ==> cfg.envoy_image == v
            &&& c.cluster_name matches Some(v) ==> cfg.cluster_name == v
            &&& c.cluster_id matches Some(v) ==> cfg.cluster_id == v
        }),
{
}

/// A field that the spec leaves out has the value of its mode's row.
pub proof fn law_the_mode_supplies_what_is_left_out(spec: NetworkSpecView)
    ensures
        ({
            let c = cilium_of(spec);
            let lb = load_balancer_of(spec);
            let cfg = effective(spec);
            let row = mode_row(spec.mode);
            &&& ipam_of(spec).mode is None ==> cfg.ipam == row.ipam
            &&& ipam_of(spec).cluster_pool_ipv4_mask_size is None
                ==> cfg.cluster_pool_ipv4_mask_size == row.cluster_pool_ipv4_mask_size
            &&& routing_of(spec).mode is None ==> cfg.routing == row.routing
            &&& c.mtu is None ==> cfg.mtu == row.mtu
            &&& c.kube_proxy_replacement is None ==> cfg.kube_proxy_replacement
                == row.kube_proxy_replacement
            &&& c.host_routing is None ==> cfg.host_routing == row.host_routing
            &&& encryption_of(spec).kind is None ==> cfg.encryption == row.encryption
            &&& lb.ipam is None ==> cfg.lb_ipam == row.lb_ipam
            &&& lb.announce is None ==> cfg.announce == row.announce
        }),
{
}

/// Direct node routes are programmed exactly with native routing.
pub proof fn law_direct_routes_go_with_native_routing(spec: NetworkSpecView)
    ensures
        effective(spec).auto_direct_node_routes <==> effective(spec).routing
            == RoutingMode::Native,
{
}

/// The default Envoy image follows the registry and nothing else: not the
/// Cilium version, nor the mode.
pub proof fn law_envoy_is_versioned_on_its_own(a: NetworkSpecView, b: NetworkSpecView)
    requires
        envoy_of(a).image is None,
        envoy_of(b).image is None,
        effective(a).registry == effective(b).registry,
    ensures
        effective(a).envoy_image == effective(b).envoy_image,
        effective(a).envoy_image == default_envoy_image(effective(a).registry),
{
}

/// Every text of a list reads as a network.
pub open spec fn all_networks(readings: Seq<CidrReadingView>) -> bool {
    forall|i: int| 0 <= i < readings.len() ==> (#[trigger] readings[i]) is Network
}

/// A config that can be installed.
pub open spec fn installable(cfg: EffectiveConfigView, readings: ReadingsView) -> bool {
    &&& readings.cluster_network.len() > 0
    &&& all_networks(readings.cluster_network)
    &&& readings.service_network.len() > 0
    &&& all_networks(readings.service_network)
    &&& cfg.ipam == IpamMode::ClusterPool ==> {
        &&& 1 <= cfg.cluster_pool_ipv4_mask_size <= 32
        &&& forall|i: int|
            0 <= i < readings.cluster_network.len()
                ==> (#[trigger] readings.cluster_network[i])->Network_prefix_len
                < cfg.cluster_pool_ipv4_mask_size
    }
    &&& cfg.k8s_service_host.len() > 0
    &&& cfg.k8s_service_port != 0
    &&& !blank(cfg.version)
    &&& cfg.mtu == 0 || 576 <= cfg.mtu <= 9216
    &&& cfg.lb_ipam ==> readings.lb_pools.len() > 0 && all_networks(readings.lb_pools)
    &&& cfg.announce != Announce::Off ==> cfg.lb_ipam
    &&& cfg.announce == Announce::Bgp ==> {
        &&& cfg.routing == RoutingMode::Native
        &&& 1 <= cfg.bgp_local_asn <= 4_294_967_295
        &&& cfg.bgp_peers.len() > 0
        &&& forall|i: int|
            0 <= i < cfg.bgp_peers.len() ==> (#[trigger] readings.bgp_peers[i]) is Address
                && 1 <= cfg.bgp_peers[i].1 <= 4_294_967_295
    }
    &&& cfg.encryption != EncryptionType::Ipsec
    &&& !blank(cfg.cluster_name)
    &&& cfg.cluster_id <= 255
}

/// There is a first complaint exactly where some item has one.
proof fn lemma_first_from(
    from: int,
    len: int,
    complaint: spec_fn(int) -> Option<ValidationErrorView>,
)
    ensures
        first_from(from, len, complaint) is None <==> forall|i: int|
            from <= i < len ==> (#[trigger] complaint(i)) is None,
    decreases len - from,
{
    if from < len {
        lemma_first_from(from + 1, len, complaint);
        if first_from(from, len, complaint) is None {
            assert forall|i: int| from <= i < len implies (#[trigger] complaint(i)) is None by {
                if i > from {
                    assert(from + 1 <= i < len);
                }
            }
        } else {
            if complaint(from) is None {
                assert(first_from(from + 1, len, complaint) is Some);
            }
        }
    }
}

proof fn lemma_cidrs(field: Seq<char>, readings: Seq<CidrReadingView>)
    ensures
        cidrs_complaint(field, readings) is None <==> all_networks(readings),
{
    let rule = |i: int| cidr_complaint(field, readings[i]);
    lemma_first_from(0, readings.len() as int, rule);
    if all_networks(readings) {
        assert forall|i: int| 0 <= i < readings.len() implies (#[trigger] rule(i)) is None by {
            assert(readings[i] is Network);
        }
    }
    if cidrs_complaint(field, readings) is None {
        assert forall|i: int| 0 <= i < readings.len() implies (#[trigger] readings[i])
            is Network by {
            assert(rule(i) is None);
        }
    }
}

/// A config is refused exactly if it cannot be installed.
pub proof fn law_refused_iff_not_installable(cfg: EffectiveConfigView, readings: ReadingsView)
    requires
        readings.fits(cfg),
    ensures
        violation(cfg, readings) is None <==> installable(cfg, readings),
{
    lemma_cidrs("spec.clusterNetwork"@, readings.cluster_network);
    lemma_cidrs("spec.serviceNetwork"@, readings.service_network);
    lemma_cidrs("spec.cilium.loadBalancer.pools"@, readings.lb_pools);
    let mask = cfg.cluster_pool_ipv4_mask_size;
    let carving = |i: int| carving_complaint(mask, readings.cluster_network[i]);
    lemma_first_from(0, readings.cluster_network.len() as int, carving);
    let peers = |i: int| peer_complaint(cfg.bgp_peers[i], readings.bgp_peers[i]);
    lemma_first_from(0, cfg.bgp_peers.len() as int, peers);
    if installable(cfg, readings) {
        if cfg.ipam == IpamMode::ClusterPool {
            assert forall|i: int| 0 <= i < readings.cluster_network.len() implies (
            #[trigger] carving(i)) is None by {
                assert(readings.cluster_network[i] is Network);
            }
        }
        if cfg.announce == Announce::Bgp {
            assert forall|i: int| 0 <= i < cfg.bgp_peers.len() implies (#[trigger] peers(i))
                is None by {
                assert(readings.bgp_peers[i] is Address);
            }
        }
    }
    if violation(cfg, readings) is None {
        if cfg.ipam == IpamMode::ClusterPool {
            assert forall|i: int| 0 <= i < readings.cluster_network.len() implies (
            #[trigger] readings.cluster_network[i])->Network_prefix_len < mask by {
                assert(carving(i) is None);
                assert(readings.cluster_network[i] is Network);
            }
        }
        if cfg.announce == Announce::Bgp {
            assert forall|i: int| 0 <= i < cfg.bgp_peers.len() implies (
            #[trigger] readings.bgp_peers[i]) is Address && 1 <= cfg.bgp_peers[i].1 <= 4_294_967_295 by {
                assert(peers(i) is None);
            }
        }
    }
}

/// A spec resolves exactly if what it asks for can be installed.
pub proof fn law_resolves_iff_installable(spec: NetworkSpecView)
    ensures
        violation_of(effective(spec)) is None <==> installable(
            effective(spec),
            readings_of(effective(spec)),
        ),
{
    law_refused_iff_not_installable(effective(spec), readings_of(effective(spec)));
}

// --- what a refusal says ---------------------------------------------------

/// The rules in the order in which they are checked.
pub open spec fn rule(cfg: EffectiveConfigView, readings: ReadingsView, n: int) -> bool {
    if n == 0 {
        cfg.cluster_network.len() > 0
    } else if n == 1 {
        all_networks(readings.cluster_network)
    } else if n == 2 {
        cfg.service_network.len() > 0
    } else if n == 3 {
        all_networks(readings.service_network)
    } else if n == 4 {
        cfg.ipam == IpamMode::ClusterPool ==> 1 <= cfg.cluster_pool_ipv4_mask_size <= 32
    } else if n == 5 {
        cfg.ipam == IpamMode::ClusterPool ==> forall|i: int|
            0 <= i < readings.cluster_network.len()
                ==> (#[trigger] readings.cluster_network[i])->Network_prefix_len
                < cfg.cluster_pool_ipv4_mask_size
    } else if n == 6 {
        cfg.k8s_service_host.len() > 0
    } else if n == 7 {
        cfg.k8s_service_port != 0
    } else if n == 8 {
        !blank(cfg.version)
    } else if n == 9 {
        cfg.mtu == 0 || 576 <= cfg.mtu <= 9216
    } else if n == 10 {
        cfg.lb_ipam ==> cfg.lb_pools.len() > 0
    } else if n == 11 {
        cfg.lb_ipam ==> all_networks(readings.lb_pools)
    } else if n == 12 {
        cfg.announce != Announce::Off ==> cfg.lb_ipam
    } else if n == 13 {
        cfg.announce == Announce::Bgp ==> cfg.routing == RoutingMode::Native
    } else if n == 14 {
        cfg.announce == Announce::Bgp ==> 1 <= cfg.bgp_local_asn <= 4_294_967_295
    } else if n == 15 {
        cfg.announce == Announce::Bgp ==> cfg.bgp_peers.len() > 0
    } else if n == 16 {
        cfg.announce == Announce::Bgp ==> forall|i: int|
            0 <= i < cfg.bgp_peers.len() ==> (#[trigger] readings.bgp_peers[i]) is Address && 1
                <= cfg.bgp_peers[i].1 <= 4_294_967_295
    } else if n == 17 {
        cfg.encryption != EncryptionType::Ipsec
    } else if n == 18 {
        !blank(cfg.cluster_name)
    } else {
        cfg.cluster_id <= 255
    }
}

/// The first rule that is broken.
pub open spec fn first_broken(cfg: EffectiveConfigView, readings: ReadingsView, n: int) -> bool {
    !rule(cfg, readings, n) && forall|m: int| 0 <= m < n ==> #[trigger] rule(cfg, readings, m)
}

/// A refusal of this field, in these words.
pub open spec fn refuses(
    cfg: EffectiveConfigView,
    readings: ReadingsView,
    field: Seq<char>,
    message: Seq<char>,
) -> bool {
    violation(cfg, readings) == Some(ValidationErrorView { field, message })
}

/// A refusal names the field of the first rule that is broken, and says what was
/// asked of it.
pub proof fn law_the_first_broken_rule_is_reported(cfg: EffectiveConfigView, readings: ReadingsView)
    requires
        readings.fits(cfg),
    ensures
        first_broken(cfg, readings, 0) ==> refuses(
            cfg,
            readings,
            "spec.clusterNetwork"@,
            "at least one pod CIDR is required"@,
        ),
        first_broken(cfg, readings, 2) ==> refuses(
            cfg,
            readings,
            "spec.serviceNetwork"@,
            "at least one service CIDR is required"@,
        ),
        first_broken(cfg, readings, 4) ==> refuses(
            cfg,
            readings,
            "spec.cilium.ipam.clusterPoolIPv4MaskSize"@,
            "must be between 1 and 32"@,
        ),
        first_broken(cfg, readings, 6) ==> refuses(
            cfg,
            readings,
            "spec.cilium.k8sServiceHost"@,
            "required — the agent must reach the apiserver before Services exist"@,
        ),
        first_broken(cfg, readings, 7) ==> refuses(
            cfg,
            readings,
            "spec.cilium.k8sServicePort"@,
            "must be non-zero"@,
        ),
        first_broken(cfg, readings, 8) ==> refuses(
            cfg,
            readings,
            "spec.cilium.version"@,
            "must not be empty"@,
        ),
        first_broken(cfg, readings, 9) ==> refuses(
            cfg,
            readings,
            "spec.cilium.mtu"@,
            "must be 0 (auto) or between 576 and 9216"@,
        ),
        first_broken(cfg, readings, 10) ==> refuses(
            cfg,
            readings,
            "spec.cilium.loadBalancer.pools"@,
            "at least one pool CIDR is required when LB-IPAM is enabled"@,
        ),
        first_broken(cfg, readings, 12) ==> refuses(
            cfg,
            readings,
            "spec.cilium.loadBalancer.announce"@,
            "announcing requires loadBalancer.ipam to be enabled"@,
        ),
        first_broken(cfg, readings, 13) ==> refuses(
            cfg,
            readings,
            "spec.cilium.routing.mode"@,
            "BGP announcements require native routing"@,
        ),
        first_broken(cfg, readings, 14) ==> refuses(
            cfg,
            readings,
            "spec.cilium.loadBalancer.bgp.localASN"@,
            "must be a valid ASN (1-4294967295)"@,
        ),
        first_broken(cfg, readings, 15) ==> refuses(
            cfg,
            readings,
            "spec.cilium.loadBalancer.bgp.peers"@,
            "at least one peer is required for BGP announcements"@,
        ),
        first_broken(cfg, readings, 17) ==> refuses(
            cfg,
            readings,
            "spec.cilium.encryption.type"@,
            "ipsec is not supported yet — use wireguard"@,
        ),
        first_broken(cfg, readings, 18) ==> refuses(
            cfg,
            readings,
            "spec.cilium.clusterName"@,
            "must not be empty"@,
        ),
        first_broken(cfg, readings, 19) ==> refuses(
            cfg,
            readings,
            "spec.cilium.clusterID"@,
            "must be between 0 and 255"@,
        ),
{
    lemma_stages(cfg, readings);
    lemma_earlier_rules(cfg, readings);
}

proof fn lemma_earlier_rules(cfg: EffectiveConfigView, readings: ReadingsView)
    ensures
        forall|n: int|
            0 < n && #[trigger] first_broken(cfg, readings, n) ==> rule(cfg, readings, 0),
        forall|n: int|
            1 < n && #[trigger] first_broken(cfg, readings, n) ==> rule(cfg, readings, 1),
        forall|n: int|
            2 < n && #[trigger] first_broken(cfg, readings, n) ==> rule(cfg, readings, 2),
        forall|n: int|
            3 < n && #[trigger] first_broken(cfg, readings, n) ==> rule(cfg, readings, 3),
        forall|n: int|
            4 < n && #[trigger] first_broken(cfg, readings, n) ==> rule(cfg, readings, 4),
        forall|n: int|
            5 < n && #[trigger] first_broken(cfg, readings, n) ==> rule(cfg, readings, 5),
        forall|n: int|
            6 < n && #[trigger] first_broken(cfg, readings, n) ==> rule(cfg, readings, 6),
        forall|n: int|
            7 < n && #[trigger] first_broken(cfg, readings, n) ==> rule(cfg, readings, 7),
        forall|n: int|
            8 < n && #[trigger] first_broken(cfg, readings, n) ==> rule(cfg, readings, 8),
        forall|n: int|
            9 < n && #[trigger] first_broken(cfg, readings, n) ==> rule(cfg, readings, 9),
        forall|n: int|
            10 < n && #[trigger] first_broken(cfg, readings, n) ==> rule(cfg, readings, 10),
        forall|n: int|
            11 < n && #[trigger] first_broken(cfg, readings, n) ==> rule(cfg, readings, 11),
        forall|n: int|
            12 < n && #[trigger] first_broken(cfg, readings, n) ==> rule(cfg, readings, 12),
        forall|n: int|
            13 < n && #[trigger] first_broken(cfg, readings, n) ==> rule(cfg, readings, 13),
        forall|n: int|
            14 < n && #[trigger] first_broken(cfg, readings, n) ==> rule(cfg, readings, 14),
        forall|n: int|
            15 < n && #[trigger] first_broken(cfg, readings, n) ==> rule(cfg, readings, 15),
        forall|n: int|
            16 < n && #[trigger] first_broken(cfg, readings, n) ==> rule(cfg, readings, 16),
        forall|n: int|
            17 < n && #[trigger] first_broken(cfg, readings, n) ==> rule(cfg, readings, 17),
        forall|n: int|
            18 < n && #[trigger] first_broken(cfg, readings, n) ==> rule(cfg, readings, 18),
{
}

/// Each stage of the checking complains exactly if one of its rules is broken.
proof fn lemma_stages(cfg: EffectiveConfigView, readings: ReadingsView)
    requires
        readings.fits(cfg),
    ensures
        some_cidrs_complaint(
            "spec.clusterNetwork"@,
            "at least one pod CIDR is required"@,
            readings.cluster_network,
        ) is None <==> rule(cfg, readings, 0) && rule(cfg, readings, 1),
        some_cidrs_complaint(
            "spec.serviceNetwork"@,
            "at least one service CIDR is required"@,
            readings.service_network,
        ) is None <==> rule(cfg, readings, 2) && rule(cfg, readings, 3),
        rule(cfg, readings, 1) ==> (mask_complaint(cfg, readings) is None <==> rule(
            cfg,
            readings,
            4,
        ) && rule(cfg, readings, 5)),
        endpoint_complaint(cfg) is None <==> rule(cfg, readings, 6) && rule(cfg, readings, 7)
            && rule(cfg, readings, 8) && rule(cfg, readings, 9),
        load_balancer_complaint(cfg, readings) is None <==> rule(cfg, readings, 10) && rule(
            cfg,
            readings,
            11,
        ) && rule(cfg, readings, 12),
        bgp_complaint(cfg, readings) is None <==> rule(cfg, readings, 13) && rule(
            cfg,
            readings,
            14,
        ) && rule(cfg, readings, 15) && rule(cfg, readings, 16),
        identity_complaint(cfg) is None <==> rule(cfg, readings, 17) && rule(cfg, readings, 18)
            && rule(cfg, readings, 19),
{
    lemma_cidrs("spec.clusterNetwork"@, readings.cluster_network);
    lemma_cidrs("spec.serviceNetwork"@, readings.service_network);
    lemma_cidrs("spec.cilium.loadBalancer.pools"@, readings.lb_pools);
    let mask = cfg.cluster_pool_ipv4_mask_size;
    let networks = readings.cluster_network;
    let carving = |i: int| carving_complaint(mask, networks[i]);
    lemma_first_from(0, networks.len() as int, carving);
    if rule(cfg, readings, 1) {
        assert forall|i: int| 0 <= i < networks.len() implies ((#[trigger] carving(i)) is None
            <==> networks[i]->Network_prefix_len < mask) by {
            assert(networks[i] is Network);
        }
        if first_from(0, networks.len() as int, carving) is None {
            assert forall|i: int| 0 <= i < networks.len() implies (
            #[trigger] networks[i])->Network_prefix_len < mask by {
                assert(carving(i) is None);
            }
        }
        if cfg.ipam == IpamMode::ClusterPool && rule(cfg, readings, 5) {
            assert forall|i: int| 0 <= i < networks.len() implies (#[trigger] carving(i))
                is None by {
                assert(networks[i]->Network_prefix_len < mask);
            }
        }
    }
    let peers = |i: int| peer_complaint(cfg.bgp_peers[i], readings.bgp_peers[i]);
    lemma_first_from(0, cfg.bgp_peers.len() as int, peers);
    if cfg.announce == Announce::Bgp {
        if rule(cfg, readings, 16) {
            assert forall|i: int| 0 <= i < cfg.bgp_peers.len() implies (#[trigger] peers(i))
                is None by {
                assert(readings.bgp_peers[i] is Address);
            }
        } else if first_from(0, cfg.bgp_peers.len() as int, peers) is None {
            assert forall|i: int| 0 <= i < cfg.bgp_peers.len() implies (
            #[trigger] readings.bgp_peers[i]) is Address && 1 <= cfg.bgp_peers[i].1
                <= 4_294_967_295 by {
                assert(peers(i) is None);
            }
        }
    }
}

proof fn lemma_first_at(
    from: int,
    len: int,
    complaint: spec_fn(int) -> Option<ValidationErrorView>,
    k: int,
)
    requires
        0 <= from <= k < len,
        complaint(k) is Some,
        forall|i: int| from <= i < k ==> (#[trigger] complaint(i)) is None,
    ensures
        first_from(from, len, complaint) == complaint(k),
    decreases k - from,
{
    if from < k {
        assert(complaint(from) is None);
        lemma_first_at(from + 1, len, complaint, k);
    }
}

/// The list of CIDRs that a rule speaks of.
pub open spec fn cidrs_ruled(readings: ReadingsView, n: int) -> Seq<CidrReadingView> {
    if n == 1 {
        readings.cluster_network
    } else if n == 3 {
        readings.service_network
    } else {
        readings.lb_pools
    }
}

/// Of a list of CIDRs that are not all networks, the first that is none is quoted.
pub proof fn law_the_first_unreadable_cidr_is_quoted(
    cfg: EffectiveConfigView,
    readings: ReadingsView,
    n: int,
    k: int,
)
    requires
        readings.fits(cfg),
        n == 1 || n == 3 || n == 11,
        first_broken(cfg, readings, n),
        0 <= k < cidrs_ruled(readings, n).len(),
        cidrs_ruled(readings, n)[k] is Unreadable,
        forall|i: int| 0 <= i < k ==> (#[trigger] cidrs_ruled(readings, n)[i]) is Network,
    ensures
        n == 1 ==> refuses(
            cfg,
            readings,
            "spec.clusterNetwork"@,
            readings.cluster_network[k]->quoted + " is not a valid CIDR: "@
                + readings.cluster_network[k]->error,
        ),
        n == 3 ==> refuses(
            cfg,
            readings,
            "spec.serviceNetwork"@,
            readings.service_network[k]->quoted + " is not a valid CIDR: "@
                + readings.service_network[k]->error,
        ),
        n == 11 ==> refuses(
            cfg,
            readings,
            "spec.cilium.loadBalancer.pools"@,
            readings.lb_pools[k]->quoted + " is not a valid CIDR: "@
                + readings.lb_pools[k]->error,
        ),
{
    lemma_stages(cfg, readings);
    let list = cidrs_ruled(readings, n);
    let field = if n == 1 {
        "spec.clusterNetwork"@
    } else if n == 3 {
        "spec.serviceNetwork"@
    } else {
        "spec.cilium.loadBalancer.pools"@
    };
    let complaint = |i: int| cidr_complaint(field, list[i]);
    assert forall|i: int| 0 <= i < k implies (#[trigger] complaint(i)) is None by {
        assert(list[i] is Network);
    }
    lemma_first_at(0, list.len() as int, complaint, k);
    assert(cidrs_complaint(field, list) == complaint(k));
}

/// Where a node mask cannot carve the pod networks, the first network that it
/// cannot carve is named, with both lengths.
pub proof fn law_the_first_network_too_small_is_named(
    cfg: EffectiveConfigView,
    readings: ReadingsView,
    k: int,
)
    requires
        readings.fits(cfg),
        first_broken(cfg, readings, 5),
        0 <= k < readings.cluster_network.len(),
        readings.cluster_network[k]->Network_prefix_len >= cfg.cluster_pool_ipv4_mask_size,
        forall|i: int|
            0 <= i < k ==> (#[trigger] readings.cluster_network[i])->Network_prefix_len
                < cfg.cluster_pool_ipv4_mask_size,
    ensures
        refuses(
            cfg,
            readings,
            "spec.cilium.ipam.clusterPoolIPv4MaskSize"@,
            "must be longer than the clusterNetwork prefix /"@ + decimal(
                readings.cluster_network[k]->Network_prefix_len as nat,
            ) + " to carve per-node blocks (got /"@ + decimal(
                cfg.cluster_pool_ipv4_mask_size as nat,
            ) + ")"@,
        ),
{
    lemma_stages(cfg, readings);
    let mask = cfg.cluster_pool_ipv4_mask_size;
    let complaint = |i: int| carving_complaint(mask, readings.cluster_network[i]);
    assert(rule(cfg, readings, 1) && rule(cfg, readings, 4));
    assert(readings.cluster_network[k] is Network);
    assert forall|i: int| 0 <= i < k implies (#[trigger] complaint(i)) is None by {
        assert(readings.cluster_network[i]->Network_prefix_len < mask);
    }
    lemma_first_at(0, readings.cluster_network.len() as int, complaint, k);
    assert(mask_complaint(cfg, readings) == complaint(k));
}

/// The first neighbour that cannot be dialled is named: by what stands in the place
/// of its address, or by the autonomous system that is none.
pub proof fn law_the_first_bad_peer_is_named(
    cfg: EffectiveConfigView,
    readings: ReadingsView,
    k: int,
)
    requires
        readings.fits(cfg),
        first_broken(cfg, readings, 16),
        0 <= k < cfg.bgp_peers.len(),
        !(readings.bgp_peers[k] is Address && 1 <= cfg.bgp_peers[k].1 <= 4_294_967_295),
        forall|i: int|
            0 <= i < k ==> (#[trigger] readings.bgp_peers[i]) is Address && 1 <= cfg.bgp_peers[i].1
                <= 4_294_967_295,
    ensures
        readings.bgp_peers[k] is Unreadable ==> refuses(
            cfg,
            readings,
            "spec.cilium.loadBalancer.bgp.peers"@,
            "peer address "@ + readings.bgp_peers[k]->quoted + " is not an IP address"@,
        ),
        readings.bgp_peers[k] is Address ==> refuses(
            cfg,
            readings,
            "spec.cilium.loadBalancer.bgp.peers"@,
            "peer "@ + cfg.bgp_peers[k].0 + " has an invalid ASN "@ + signed_decimal(
                cfg.bgp_peers[k].1 as int,
            ),
        ),
{
    lemma_stages(cfg, readings);
    let complaint = |i: int| peer_complaint(cfg.bgp_peers[i], readings.bgp_peers[i]);
    assert forall|i: int| 0 <= i < k implies (#[trigger] complaint(i)) is None by {
        assert(readings.bgp_peers[i] is Address);
    }
    lemma_first_at(0, cfg.bgp_peers.len() as int, complaint, k);
    assert(rule(cfg, readings, 13) && rule(cfg, readings, 14) && rule(cfg, readings, 15));
    assert(bgp_complaint(cfg, readings) == complaint(k));
}

/// What is read is what the config holds: each text of each list, in its place.
pub proof fn law_every_text_is_read(cfg: EffectiveConfigView)
    ensures
        readings_of(cfg).fits(cfg),
        forall|i: int|
            0 <= i < cfg.cluster_network.len() ==> #[trigger] readings_of(cfg).cluster_network[i]
                == cidr_reading(cfg.cluster_network[i]),
        forall|i: int|
            0 <= i < cfg.service_network.len() ==> #[trigger] readings_of(cfg).service_network[i]
                == cidr_reading(cfg.service_network[i]),
        forall|i: int|
            0 <= i < cfg.lb_pools.len() ==> #[trigger] readings_of(cfg).lb_pools[i]
                == cidr_reading(cfg.lb_pools[i]),
        forall|i: int|
            0 <= i < cfg.bgp_peers.len() ==> #[trigger] readings_of(cfg).bgp_peers[i]
                == address_reading(cfg.bgp_peers[i].0),
{
}

/// An error in one line: the field, and what is wrong with it.
pub proof fn law_an_error_names_its_field(e: ValidationErrorView)
    ensures
        e.line() == e.field + ": "@ + e.message,
{
}

} // verus!
