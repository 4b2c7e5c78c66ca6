//! What `cilium-config` says of a config, key by key.

use vstd::prelude::*;

use crate::crd::{Announce, EncryptionType, HostRouting, IpamMode, RoutingMode};
use crate::modes::EffectiveConfigView;

verus! {

use crate::render::config::{
    data_view, with_cni, with_datapath, with_encryption, with_families, with_identity,
    with_ipam, with_load_balancing, with_mtu, with_operations, with_proxy, with_services,
};
use crate::render::object::{typed_view, BodyView};
use crate::text::{decimal, joined, signed_decimal};

/// A key with this value.
pub open spec fn says(
    d: Map<Seq<char>, Seq<char>>,
    key: Seq<char>,
    value: Seq<char>,
) -> bool {
    d.contains_key(key) && d[key] == value
}

/// A truth value in a word.
pub open spec fn word(b: bool) -> Seq<char> {
    if b {
        "true"@
    } else {
        "false"@
    }
}

/// The character of a key at an index, or the last one of a shorter key.
spec fn letter(key: Seq<char>, i: int) -> char {
    key[if i < key.len() {
        i
    } else {
        key.len() - 1
    }]
}

/// A number for each key, made of its length and two letters. No two keys of
/// `cilium-config` share one.
#[verifier::opaque]
spec fn number(key: Seq<char>) -> int {
    key.len() + 32 * (letter(key, 10) as int) + 4096 * (letter(key, 12) as int)
}

proof fn lemma_numbers()
    ensures
        number("identity-allocation-mode"@) == 458136,
        number("cluster-name"@) == 417196,
        number("cluster-id"@) == 412810,
        number("routing-mode"@) == 416908,
        number("ipv4-native-routing-cidr"@) == 470200,
        number("auto-direct-node-routes"@) == 454295,
        number("tunnel-protocol"@) == 409231,
        number("tunnel-port"@) == 478859,
        number("enable-ipv4"@) == 214667,
        number("enable-ipv6"@) == 222923,
        number("enable-ipv4-masquerade"@) == 448150,
        number("enable-ipv6-masquerade"@) == 448214,
        number("enable-bpf-masquerade"@) == 398773,
        number("enable-host-legacy-routing"@) == 446106,
        number("ipam"@) == 449956,
        number("cluster-pool-ipv4-cidr"@) == 187894,
        number("cluster-pool-ipv4-mask-size"@) == 187899,
        number("kube-proxy-replacement"@) == 415158,
        number("k8s-service-host"@) == 429232,
        number("k8s-service-port"@) == 462000,
        number("bpf-lb-external-clusterip"@) == 453817,
        number("enable-session-affinity"@) == 458359,
        number("enable-health-check-nodeport"@) == 429468,
        number("mtu"@) == 482979,
        number("enable-wireguard"@) == 482480,
        number("enable-ipsec"@) == 408748,
        number("enable-lb-ipam"@) == 400686,
        number("enable-l2-announcements"@) == 453687,
        number("enable-bgp-control-plane"@) == 456120,
        number("enable-policy"@) == 498989,
        number("enable-k8s-networkpolicy"@) == 415160,
        number("enable-l7-proxy"@) == 458255,
        number("external-envoy-proxy"@) == 458196,
        number("envoy-base-id"@) == 411053,
        number("envoy-access-log-buffer-size"@) == 188028,
        number("envoy-keep-cap-netbindservice"@) == 398781,
        number("cni-exclusive"@) == 417069,
        number("cni-log-file"@) == 417164,
        number("custom-cni-conf"@) == 456111,
        number("write-cni-conf-when-ready"@) == 453753,
        number("agent-health-port"@) == 188049,
        number("enable-health-checking"@) == 429462,
        number("enable-endpoint-health-checking"@) == 433695,
        number("operator-api-serve-addr"@) == 187927,
        number("debug"@) == 425189,
        number("monitor-aggregation"@) == 417011,
        number("monitor-aggregation-interval"@) == 417020,
        number("monitor-aggregation-flags"@) == 417017,
        number("preallocate-bpf-maps"@) == 404660,
        number("bpf-map-dynamic-size-ratio"@) == 450010,
{
    reveal(number);
    reveal_strlit("identity-allocation-mode");
    reveal_strlit("cluster-name");
    reveal_strlit("cluster-id");
    reveal_strlit("routing-mode");
    reveal_strlit("ipv4-native-routing-cidr");
    reveal_strlit("auto-direct-node-routes");
    reveal_strlit("tunnel-protocol");
    reveal_strlit("tunnel-port");
    reveal_strlit("enable-ipv4");
    reveal_strlit("enable-ipv6");
    reveal_strlit("enable-ipv4-masquerade");
    reveal_strlit("enable-ipv6-masquerade");
    reveal_strlit("enable-bpf-masquerade");
    reveal_strlit("enable-host-legacy-routing");
    reveal_strlit("ipam");
    reveal_strlit("cluster-pool-ipv4-cidr");
    reveal_strlit("cluster-pool-ipv4-mask-size");
    reveal_strlit("kube-proxy-replacement");
    reveal_strlit("k8s-service-host");
    reveal_strlit("k8s-service-port");
    reveal_strlit("bpf-lb-external-clusterip");
    reveal_strlit("enable-session-affinity");
    reveal_strlit("enable-health-check-nodeport");
    reveal_strlit("mtu");
    reveal_strlit("enable-wireguard");
    reveal_strlit("enable-ipsec");
    reveal_strlit("enable-lb-ipam");
    reveal_strlit("enable-l2-announcements");
    reveal_strlit("enable-bgp-control-plane");
    reveal_strlit("enable-policy");
    reveal_strlit("enable-k8s-networkpolicy");
    reveal_strlit("enable-l7-proxy");
    reveal_strlit("external-envoy-proxy");
    reveal_strlit("envoy-base-id");
    reveal_strlit("envoy-access-log-buffer-size");
    reveal_strlit("envoy-keep-cap-netbindservice");
    reveal_strlit("cni-exclusive");
    reveal_strlit("cni-log-file");
    reveal_strlit("custom-cni-conf");
    reveal_strlit("write-cni-conf-when-ready");
    reveal_strlit("agent-health-port");
    reveal_strlit("enable-health-checking");
    reveal_strlit("enable-endpoint-health-checking");
    reveal_strlit("operator-api-serve-addr");
    reveal_strlit("debug");
    reveal_strlit("monitor-aggregation");
    reveal_strlit("monitor-aggregation-interval");
    reveal_strlit("monitor-aggregation-flags");
    reveal_strlit("preallocate-bpf-maps");
    reveal_strlit("bpf-map-dynamic-size-ratio");
}

/// The keys of the datapath: a tunnel has its protocol and port, native routing
/// its CIDRs and direct routes, and neither has the keys of the other.
pub proof fn law_datapath_keys(cfg: EffectiveConfigView)
    ensures
        ({
            let d = data_view(cfg);
            &&& cfg.routing == RoutingMode::Tunnel ==> {
                &&& says(d, "routing-mode"@, "tunnel"@)
                &&& says(d, "tunnel-protocol"@, "vxlan"@)
                &&& says(d, "tunnel-port"@, "8472"@)
                &&& !d.contains_key("ipv4-native-routing-cidr"@)
                &&& !d.contains_key("auto-direct-node-routes"@)
            }
            &&& cfg.routing == RoutingMode::Native ==> {
                &&& says(d, "routing-mode"@, "native"@)
                &&& says(d, "ipv4-native-routing-cidr"@, joined(cfg.cluster_network, ","@))
                &&& says(d, "auto-direct-node-routes"@, word(cfg.auto_direct_node_routes))
                &&& !d.contains_key("tunnel-protocol"@)
                &&& !d.contains_key("tunnel-port"@)
            }
            &&& says(d, "enable-host-legacy-routing"@, word(cfg.host_routing == HostRouting::Legacy))
        }),
{
    lemma_numbers();
}

/// The pod CIDRs and the node mask are there exactly with cluster-pool IPAM.
pub proof fn law_ipam_keys(cfg: EffectiveConfigView)
    ensures
        ({
            let d = data_view(cfg);
            &&& cfg.ipam == IpamMode::ClusterPool ==> {
                &&& says(d, "ipam"@, "cluster-pool"@)
                &&& says(d, "cluster-pool-ipv4-cidr"@, joined(cfg.cluster_network, ","@))
                &&& says(
                    d,
                    "cluster-pool-ipv4-mask-size"@,
                    decimal(cfg.cluster_pool_ipv4_mask_size as nat),
                )
            }
            &&& cfg.ipam == IpamMode::Kubernetes ==> {
                &&& says(d, "ipam"@, "kubernetes"@)
                &&& !d.contains_key("cluster-pool-ipv4-cidr"@)
                &&& !d.contains_key("cluster-pool-ipv4-mask-size"@)
            }
        }),
{
    lemma_numbers();
}

/// An MTU of 0 is left to the agent: the key is there exactly for another.
pub proof fn law_mtu_key(cfg: EffectiveConfigView)
    ensures
        ({
            let d = data_view(cfg);
            &&& cfg.mtu == 0 ==> !d.contains_key("mtu"@)
            &&& cfg.mtu != 0 ==> says(d, "mtu"@, signed_decimal(cfg.mtu as int))
        }),
{
    lemma_numbers();
}

/// At most one way of encrypting is on, and it is the one the config names.
pub proof fn law_encryption_keys(cfg: EffectiveConfigView)
    ensures
        ({
            let d = data_view(cfg);
            &&& says(d, "enable-wireguard"@, word(cfg.encryption == EncryptionType::Wireguard))
            &&& says(d, "enable-ipsec"@, word(cfg.encryption == EncryptionType::Ipsec))
        }),
{
    lemma_numbers();
}

/// At most one way of announcing is on, and it is the one the config names.
pub proof fn law_announcements_exclude_each_other(cfg: EffectiveConfigView)
    ensures
        ({
            let d = data_view(cfg);
            &&& says(d, "enable-lb-ipam"@, word(cfg.lb_ipam))
            &&& says(d, "enable-l2-announcements"@, word(cfg.announce == Announce::L2))
            &&& says(d, "enable-bgp-control-plane"@, word(cfg.announce == Announce::Bgp))
            &&& !(says(d, "enable-l2-announcements"@, "true"@) && says(
                d,
                "enable-bgp-control-plane"@,
                "true"@,
            ))
        }),
{
    lemma_numbers();
    lemma_flags_differ();
}

proof fn lemma_flags_differ()
    ensures
        "true"@ != "false"@,
{
    reveal_strlit("true");
    reveal_strlit("false");
    assert("true"@.len() == 4);
    assert("false"@.len() == 5);
}

/// Who the cluster is, where its apiserver is, and what handles its Services.
pub proof fn law_cluster_keys(cfg: EffectiveConfigView)
    ensures
        ({
            let d = data_view(cfg);
            &&& says(d, "identity-allocation-mode"@, "crd"@)
            &&& says(d, "cluster-name"@, cfg.cluster_name)
            &&& says(d, "cluster-id"@, decimal(cfg.cluster_id as nat))
            &&& says(d, "kube-proxy-replacement"@, word(cfg.kube_proxy_replacement))
            &&& says(d, "k8s-service-host"@, cfg.k8s_service_host)
            &&& says(d, "k8s-service-port"@, decimal(cfg.k8s_service_port as nat))
            &&& says(d, "external-envoy-proxy"@, word(cfg.envoy))
        }),
{
    lemma_numbers();
}

/// IPv4 is the one address family, and it is masqueraded in eBPF. IPv6 is off, and
/// so is masquerading it.
pub proof fn law_address_family_keys(cfg: EffectiveConfigView)
    ensures
        ({
            let d = data_view(cfg);
            &&& says(d, "enable-ipv4"@, "true"@)
            &&& says(d, "enable-ipv6"@, "false"@)
            &&& says(d, "enable-ipv4-masquerade"@, "true"@)
            &&& says(d, "enable-ipv6-masquerade"@, "false"@)
            &&& says(d, "enable-bpf-masquerade"@, "true"@)
        }),
{
    lemma_numbers();
}

/// How Services are handled, whatever the config: sessions stick, NodePorts are
/// health-checked, and ClusterIPs stay inside.
pub proof fn law_service_handling_keys(cfg: EffectiveConfigView)
    ensures
        ({
            let d = data_view(cfg);
            &&& says(d, "bpf-lb-external-clusterip"@, "false"@)
            &&& says(d, "enable-session-affinity"@, "true"@)
            &&& says(d, "enable-health-check-nodeport"@, "true"@)
        }),
{
    lemma_numbers();
}

/// Network policy is enforced, and L7 goes through the proxy.
pub proof fn law_policy_and_proxy_keys(cfg: EffectiveConfigView)
    ensures
        ({
            let d = data_view(cfg);
            &&& says(d, "enable-policy"@, "default"@)
            &&& says(d, "enable-k8s-networkpolicy"@, "true"@)
            &&& says(d, "enable-l7-proxy"@, "true"@)
            &&& says(d, "envoy-base-id"@, "0"@)
            &&& says(d, "envoy-access-log-buffer-size"@, "4096"@)
            &&& says(d, "envoy-keep-cap-netbindservice"@, "false"@)
        }),
{
    lemma_numbers();
}

/// Cilium is the only CNI of a node, and its conflist is written once the agent is
/// ready.
pub proof fn law_cni_keys(cfg: EffectiveConfigView)
    ensures
        ({
            let d = data_view(cfg);
            &&& says(d, "cni-exclusive"@, "true"@)
            &&& says(d, "cni-log-file"@, "/var/run/cilium/cilium-cni.log"@)
            &&& says(d, "custom-cni-conf"@, "false"@)
            &&& says(d, "write-cni-conf-when-ready"@, "/host/etc/cni/net.d/05-cilium.conflist"@)
        }),
{
    lemma_numbers();
}

/// Where the agent and `cilium-operator` answer for their health, and how much is
/// monitored.
pub proof fn law_operations_keys(cfg: EffectiveConfigView)
    ensures
        ({
            let d = data_view(cfg);
            &&& says(d, "agent-health-port"@, "9879"@)
            &&& says(d, "enable-health-checking"@, "true"@)
            &&& says(d, "enable-endpoint-health-checking"@, "true"@)
            &&& says(d, "operator-api-serve-addr"@, "127.0.0.1:9234"@)
            &&& says(d, "debug"@, "false"@)
            &&& says(d, "monitor-aggregation"@, "medium"@)
            &&& says(d, "monitor-aggregation-interval"@, "5s"@)
            &&& says(d, "monitor-aggregation-flags"@, "all"@)
            &&& says(d, "preallocate-bpf-maps"@, "false"@)
            &&& says(d, "bpf-map-dynamic-size-ratio"@, "0.0025"@)
        }),
{
    lemma_numbers();
    lemma_health_port();
}

proof fn lemma_health_port()
    ensures
        signed_decimal(9879) == "9879"@,
{
    reveal_strlit("9879");
    reveal_with_fuel(decimal, 5);
    assert(decimal(9879) =~= "9879"@);
}

/// The ConfigMap that is rendered holds these settings.
pub proof fn law_the_settings_are_rendered(cfg: EffectiveConfigView)
    ensures
        crate::render::config::render_view(cfg).obj.body == (BodyView::ConfigMap {
            data: Some(data_view(cfg)),
        }),
        crate::render::config::render_view(cfg).id() == "ConfigMap/kube-system/cilium-config"@,
{
    reveal(typed_view);
    crate::render::laws::lemma_ids_spelled();
}

proof fn lemma_same_keys(a: EffectiveConfigView, b: EffectiveConfigView)
    requires
        a.routing == b.routing,
        a.ipam == b.ipam,
        a.mtu == 0 <==> b.mtu == 0,
    ensures
        data_view(a).dom() == data_view(b).dom(),
{
    let a0 = with_identity(Map::empty(), a);
    let b0 = with_identity(Map::empty(), b);
    assert(a0.dom() =~= b0.dom());
    let a1 = with_datapath(a0, a);
    let b1 = with_datapath(b0, b);
    assert(a1.dom() =~= b1.dom());
    let a2 = with_families(a1, a);
    let b2 = with_families(b1, b);
    assert(a2.dom() =~= b2.dom());
    let a3 = with_ipam(a2, a);
    let b3 = with_ipam(b2, b);
    assert(a3.dom() =~= b3.dom());
    let a4 = with_services(a3, a);
    let b4 = with_services(b3, b);
    assert(a4.dom() =~= b4.dom());
    let a5 = with_mtu(a4, a);
    let b5 = with_mtu(b4, b);
    assert(a5.dom() =~= b5.dom());
    let a6 = with_encryption(a5, a);
    let b6 = with_encryption(b5, b);
    assert(a6.dom() =~= b6.dom());
    let a7 = with_load_balancing(a6, a);
    let b7 = with_load_balancing(b6, b);
    assert(a7.dom() =~= b7.dom());
    let a8 = with_proxy(a7, a);
    let b8 = with_proxy(b7, b);
    assert(a8.dom() =~= b8.dom());
    let a9 = with_cni(a8);
    let b9 = with_cni(b8);
    assert(a9.dom() =~= b9.dom());
    let a10 = with_operations(a9);
    let b10 = with_operations(b9);
    assert(a10.dom() =~= b10.dom());
}

/// Which keys there are follows from the routing mode, the IPAM mode and whether
/// the MTU is left to the agent, and tells these three: no other setting adds or
/// drops a key.
pub proof fn law_the_keys_follow_from_routing_ipam_and_mtu(
    a: EffectiveConfigView,
    b: EffectiveConfigView,
)
    ensures
        data_view(a).dom() == data_view(b).dom() <==> a.routing == b.routing && a.ipam == b.ipam
            && (a.mtu == 0 <==> b.mtu == 0),
{
    if a.routing == b.routing && a.ipam == b.ipam && (a.mtu == 0 <==> b.mtu == 0) {
        lemma_same_keys(a, b);
    } else {
        lemma_other_keys(a, b);
    }
}

proof fn lemma_other_keys(a: EffectiveConfigView, b: EffectiveConfigView)
    requires
        a.routing != b.routing || a.ipam != b.ipam || (a.mtu == 0) != (b.mtu == 0),
    ensures
        data_view(a).dom() != data_view(b).dom(),
{
    law_datapath_keys(a);
    law_datapath_keys(b);
    law_ipam_keys(a);
    law_ipam_keys(b);
    law_mtu_key(a);
    law_mtu_key(b);
    let key = if a.routing != b.routing {
        "tunnel-port"@
    } else if a.ipam != b.ipam {
        "cluster-pool-ipv4-cidr"@
    } else {
        "mtu"@
    };
    assert(data_view(a).dom().contains(key) != data_view(b).dom().contains(key));
}

/// The service network is guarded, and recorded in the status, but is not part
/// of what Cilium is told.
pub proof fn law_the_service_network_is_not_configured(
    a: EffectiveConfigView,
    service_network: Seq<Seq<char>>,
)
    ensures
        data_view(EffectiveConfigView { service_network, ..a }) == data_view(a),
{
}

/// There are no other keys than these.
pub proof fn law_there_are_no_other_keys(cfg: EffectiveConfigView, key: Seq<char>)
    requires
        data_view(cfg).contains_key(key),
    ensures
        ({
            ||| key == "identity-allocation-mode"@
            ||| key == "cluster-name"@
            ||| key == "cluster-id"@
            ||| key == "routing-mode"@
            ||| key == "ipv4-native-routing-cidr"@
            ||| key == "auto-direct-node-routes"@
            ||| key == "tunnel-protocol"@
            ||| key == "tunnel-port"@
            ||| key == "enable-ipv4"@
            ||| key == "enable-ipv6"@
            ||| key == "enable-ipv4-masquerade"@
            ||| key == "enable-ipv6-masquerade"@
            ||| key == "enable-bpf-masquerade"@
            ||| key == "enable-host-legacy-routing"@
            ||| key == "ipam"@
            ||| key == "cluster-pool-ipv4-cidr"@
            ||| key == "cluster-pool-ipv4-mask-size"@
            ||| key == "kube-proxy-replacement"@
            ||| key == "k8s-service-host"@
            ||| key == "k8s-service-port"@
            ||| key == "bpf-lb-external-clusterip"@
            ||| key == "enable-session-affinity"@
            ||| key == "enable-health-check-nodeport"@
            ||| key == "mtu"@
            ||| key == "enable-wireguard"@
            ||| key == "enable-ipsec"@
            ||| key == "enable-lb-ipam"@
            ||| key == "enable-l2-announcements"@
            ||| key == "enable-bgp-control-plane"@
            ||| key == "enable-policy"@
            ||| key == "enable-k8s-networkpolicy"@
            ||| key == "enable-l7-proxy"@
            ||| key == "external-envoy-proxy"@
            ||| key == "envoy-base-id"@
            ||| key == "envoy-access-log-buffer-size"@
            ||| key == "envoy-keep-cap-netbindservice"@
            ||| key == "cni-exclusive"@
            ||| key == "cni-log-file"@
            ||| key == "custom-cni-conf"@
            ||| key == "write-cni-conf-when-ready"@
            ||| key == "agent-health-port"@
            ||| key == "enable-health-checking"@
            ||| key == "enable-endpoint-health-checking"@
            ||| key == "operator-api-serve-addr"@
            ||| key == "debug"@
            ||| key == "monitor-aggregation"@
            ||| key == "monitor-aggregation-interval"@
            ||| key == "monitor-aggregation-flags"@
            ||| key == "preallocate-bpf-maps"@
            ||| key == "bpf-map-dynamic-size-ratio"@
        }),
{
}

} // verus!
