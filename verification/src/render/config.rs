//! The `cilium-config` ConfigMap — the agent's and operator's entire runtime
//! configuration. This is where a `Network` mode actually becomes Cilium
//! behaviour, so it is the most load-bearing part of the render.

use vstd::prelude::*;

use crate::crd::{Announce, EncryptionType, HostRouting, IpamMode, RoutingMode};
use crate::k8s::resource::{ConfigMap, ConfigMapView};
use crate::modes::{EffectiveConfig, EffectiveConfigView};
use crate::render::metadata::meta;
use crate::render::names::{AGENT_HEALTH_PORT, CONFIG_MAP};
use crate::render::object::{typed, Object, ObjectView, Rendered, RenderedView};
use crate::string_map::StringMap;
use crate::text::{decimal_string, join, signed_decimal_string};

verus! {

use crate::render::metadata::meta_view;
use crate::render::object::typed_view;
use crate::text::{decimal, joined, signed_decimal};

/// Default VXLAN port. Cilium's own default; the OpenShift analogue is
/// `genevePort`.
pub const TUNNEL_PORT: &'static str = "8472";

/// Dual-stack is not supported yet. Kept as a named constant so the keys that
/// depend on it move together the day it is.
pub const IPV6_ENABLED: bool = false;

/// A truth value as Cilium reads it.
pub open spec fn flag(b: bool) -> Seq<char> {
    if b {
        "true"@
    } else {
        "false"@
    }
}

fn bool_str(b: bool) -> (r: &'static str)
    ensures
        r@ == flag(b),
{
    if b {
        "true"
    } else {
        "false"
    }
}

/// Who the cluster is. CRD-backed identities are the only mode that works
/// without an external kvstore, which we deliberately do not run.
pub open spec fn with_identity(
    d: Map<Seq<char>, Seq<char>>,
    cfg: EffectiveConfigView,
) -> Map<Seq<char>, Seq<char>> {
    d
        .insert("identity-allocation-mode"@, "crd"@)
        .insert("cluster-name"@, cfg.cluster_name)
        .insert("cluster-id"@, decimal(cfg.cluster_id as nat))
}

fn set_identity(d: &mut StringMap, cfg: &EffectiveConfig)
    ensures
        final(d).deep_view() == with_identity(old(d).deep_view(), cfg.deep_view()),
{
    d.insert("identity-allocation-mode", "crd");
    d.insert("cluster-name", cfg.cluster_name.as_str());
    d.insert("cluster-id", decimal_string(cfg.cluster_id as u64).as_str());
}

/// How pod traffic crosses the network. With native routing, traffic to the
/// pod CIDRs is routed, not masqueraded — without it native routing NATs
/// pod-to-pod traffic and breaks policy identity.
pub open spec fn with_datapath(
    d: Map<Seq<char>, Seq<char>>,
    cfg: EffectiveConfigView,
) -> Map<Seq<char>, Seq<char>> {
    let d = d.insert("routing-mode"@, cfg.routing.name());
    if cfg.routing == RoutingMode::Native {
        d
            .insert("ipv4-native-routing-cidr"@, joined(cfg.cluster_network, ","@))
            .insert("auto-direct-node-routes"@, flag(cfg.auto_direct_node_routes))
    } else {
        d
            .insert("tunnel-protocol"@, "vxlan"@)
            .insert("tunnel-port"@, TUNNEL_PORT@)
    }
}

fn set_datapath(d: &mut StringMap, cfg: &EffectiveConfig)
    ensures
        final(d).deep_view() == with_datapath(old(d).deep_view(), cfg.deep_view()),
{
    d.insert("routing-mode", cfg.routing.as_str());
    if cfg.routing == RoutingMode::Native {
        d.insert("ipv4-native-routing-cidr", join(&cfg.cluster_network, ",").as_str());
        d.insert("auto-direct-node-routes", bool_str(cfg.auto_direct_node_routes));
    } else {
        d.insert("tunnel-protocol", "vxlan");
        d.insert("tunnel-port", TUNNEL_PORT);
    }
}

/// Address families and masquerading. IPv6 masquerading follows IPv6. bpf host
/// routing is the fast path; `legacy` pushes packets back up through the host
/// stack.
pub open spec fn with_families(
    d: Map<Seq<char>, Seq<char>>,
    cfg: EffectiveConfigView,
) -> Map<Seq<char>, Seq<char>> {
    d
        .insert("enable-ipv4"@, "true"@)
        .insert("enable-ipv6"@, flag(IPV6_ENABLED))
        .insert("enable-ipv4-masquerade"@, "true"@)
        .insert("enable-ipv6-masquerade"@, flag(IPV6_ENABLED))
        .insert("enable-bpf-masquerade"@, "true"@)
        .insert("enable-host-legacy-routing"@, flag(cfg.host_routing == HostRouting::Legacy))
}

fn set_families(d: &mut StringMap, cfg: &EffectiveConfig)
    ensures
        final(d).deep_view() == with_families(old(d).deep_view(), cfg.deep_view()),
{
    d.insert("enable-ipv4", "true");
    d.insert("enable-ipv6", bool_str(IPV6_ENABLED));
    d.insert("enable-ipv4-masquerade", "true");
    d.insert("enable-ipv6-masquerade", bool_str(IPV6_ENABLED));
    d.insert("enable-bpf-masquerade", "true");
    d.insert("enable-host-legacy-routing", bool_str(cfg.host_routing == HostRouting::Legacy));
}

/// Where pod addresses come from.
pub open spec fn with_ipam(
    d: Map<Seq<char>, Seq<char>>,
    cfg: EffectiveConfigView,
) -> Map<Seq<char>, Seq<char>> {
    let d = d.insert("ipam"@, cfg.ipam.name());
    if cfg.ipam == IpamMode::ClusterPool {
        d
            .insert("cluster-pool-ipv4-cidr"@, joined(cfg.cluster_network, ","@))
            .insert("cluster-pool-ipv4-mask-size"@, decimal(cfg.cluster_pool_ipv4_mask_size as nat))
    } else {
        d
    }
}

fn set_ipam(d: &mut StringMap, cfg: &EffectiveConfig)
    ensures
        final(d).deep_view() == with_ipam(old(d).deep_view(), cfg.deep_view()),
{
    d.insert("ipam", cfg.ipam.as_str());
    if cfg.ipam == IpamMode::ClusterPool {
        d.insert("cluster-pool-ipv4-cidr", join(&cfg.cluster_network, ",").as_str());
        d.insert(
            "cluster-pool-ipv4-mask-size",
            decimal_string(cfg.cluster_pool_ipv4_mask_size as u64).as_str(),
        );
    }
}

/// Service handling, and the apiserver to dial before there is any.
pub open spec fn with_services(
    d: Map<Seq<char>, Seq<char>>,
    cfg: EffectiveConfigView,
) -> Map<Seq<char>, Seq<char>> {
    d
        .insert("kube-proxy-replacement"@, flag(cfg.kube_proxy_replacement))
        .insert("k8s-service-host"@, cfg.k8s_service_host)
        .insert("k8s-service-port"@, decimal(cfg.k8s_service_port as nat))
        .insert("bpf-lb-external-clusterip"@, "false"@)
        .insert("enable-session-affinity"@, "true"@)
        .insert("enable-health-check-nodeport"@, "true"@)
}

fn set_services(d: &mut StringMap, cfg: &EffectiveConfig)
    ensures
        final(d).deep_view() == with_services(old(d).deep_view(), cfg.deep_view()),
{
    d.insert("kube-proxy-replacement", bool_str(cfg.kube_proxy_replacement));
    d.insert("k8s-service-host", cfg.k8s_service_host.as_str());
    d.insert("k8s-service-port", decimal_string(cfg.k8s_service_port as u64).as_str());
    d.insert("bpf-lb-external-clusterip", "false");
    d.insert("enable-session-affinity", "true");
    d.insert("enable-health-check-nodeport", "true");
}

/// The MTU. 0 means "let the agent probe the node".
pub open spec fn with_mtu(
    d: Map<Seq<char>, Seq<char>>,
    cfg: EffectiveConfigView,
) -> Map<Seq<char>, Seq<char>> {
    if cfg.mtu != 0 {
        d.insert("mtu"@, signed_decimal(cfg.mtu as int))
    } else {
        d
    }
}

fn set_mtu(d: &mut StringMap, cfg: &EffectiveConfig)
    ensures
        final(d).deep_view() == with_mtu(old(d).deep_view(), cfg.deep_view()),
{
    if cfg.mtu != 0 {
        d.insert("mtu", signed_decimal_string(cfg.mtu as i64).as_str());
    }
}

/// Pod-to-pod encryption.
pub open spec fn with_encryption(
    d: Map<Seq<char>, Seq<char>>,
    cfg: EffectiveConfigView,
) -> Map<Seq<char>, Seq<char>> {
    d
        .insert("enable-wireguard"@, flag(cfg.encryption == EncryptionType::Wireguard))
        .insert("enable-ipsec"@, flag(cfg.encryption == EncryptionType::Ipsec))
}

fn set_encryption(d: &mut StringMap, cfg: &EffectiveConfig)
    ensures
        final(d).deep_view() == with_encryption(old(d).deep_view(), cfg.deep_view()),
{
    d.insert("enable-wireguard", bool_str(cfg.encryption == EncryptionType::Wireguard));
    d.insert("enable-ipsec", bool_str(cfg.encryption == EncryptionType::Ipsec));
}

/// VIPs and how they are announced.
pub open spec fn with_load_balancing(
    d: Map<Seq<char>, Seq<char>>,
    cfg: EffectiveConfigView,
) -> Map<Seq<char>, Seq<char>> {
    d
        .insert("enable-lb-ipam"@, flag(cfg.lb_ipam))
        .insert("enable-l2-announcements"@, flag(cfg.announce == Announce::L2))
        .insert("enable-bgp-control-plane"@, flag(cfg.announce == Announce::Bgp))
}

fn set_load_balancing(d: &mut StringMap, cfg: &EffectiveConfig)
    ensures
        final(d).deep_view() == with_load_balancing(old(d).deep_view(), cfg.deep_view()),
{
    d.insert("enable-lb-ipam", bool_str(cfg.lb_ipam));
    d.insert("enable-l2-announcements", bool_str(cfg.announce == Announce::L2));
    d.insert("enable-bgp-control-plane", bool_str(cfg.bgp_enabled()));
}

/// Policy and the L7 proxy, which stays embedded in the agent unless the
/// standalone Envoy carries it.
pub open spec fn with_proxy(
    d: Map<Seq<char>, Seq<char>>,
    cfg: EffectiveConfigView,
) -> Map<Seq<char>, Seq<char>> {
    d
        .insert("enable-policy"@, "default"@)
        .insert("enable-k8s-networkpolicy"@, "true"@)
        .insert("enable-l7-proxy"@, "true"@)
        .insert("external-envoy-proxy"@, flag(cfg.envoy))
        .insert("envoy-base-id"@, "0"@)
        .insert("envoy-access-log-buffer-size"@, "4096"@)
        .insert("envoy-keep-cap-netbindservice"@, "false"@)
}

fn set_proxy(d: &mut StringMap, cfg: &EffectiveConfig)
    ensures
        final(d).deep_view() == with_proxy(old(d).deep_view(), cfg.deep_view()),
{
    d.insert("enable-policy", "default");
    d.insert("enable-k8s-networkpolicy", "true");
    d.insert("enable-l7-proxy", "true");
    d.insert("external-envoy-proxy", bool_str(cfg.envoy));
    d.insert("envoy-base-id", "0");
    d.insert("envoy-access-log-buffer-size", "4096");
    d.insert("envoy-keep-cap-netbindservice", "false");
}

/// CNI plumbing.
pub open spec fn with_cni(d: Map<Seq<char>, Seq<char>>) -> Map<Seq<char>, Seq<char>> {
    d
        .insert("cni-exclusive"@, "true"@)
        .insert("cni-log-file"@, "/var/run/cilium/cilium-cni.log"@)
        .insert("custom-cni-conf"@, "false"@)
        .insert("write-cni-conf-when-ready"@, "/host/etc/cni/net.d/05-cilium.conflist"@)
}

fn set_cni(d: &mut StringMap)
    ensures
        final(d).deep_view() == with_cni(old(d).deep_view()),
{
    d.insert("cni-exclusive", "true");
    d.insert("cni-log-file", "/var/run/cilium/cilium-cni.log");
    d.insert("custom-cni-conf", "false");
    d.insert("write-cni-conf-when-ready", "/host/etc/cni/net.d/05-cilium.conflist");
}

/// Health and operations.
pub open spec fn with_operations(d: Map<Seq<char>, Seq<char>>) -> Map<Seq<char>, Seq<char>> {
    d
        .insert("agent-health-port"@, signed_decimal(AGENT_HEALTH_PORT as int))
        .insert("enable-health-checking"@, "true"@)
        .insert("enable-endpoint-health-checking"@, "true"@)
        .insert("operator-api-serve-addr"@, "127.0.0.1:9234"@)
        .insert("debug"@, "false"@)
        .insert("monitor-aggregation"@, "medium"@)
        .insert("monitor-aggregation-interval"@, "5s"@)
        .insert("monitor-aggregation-flags"@, "all"@)
        .insert("preallocate-bpf-maps"@, "false"@)
        .insert("bpf-map-dynamic-size-ratio"@, "0.0025"@)
}

fn set_operations(d: &mut StringMap)
    ensures
        final(d).deep_view() == with_operations(old(d).deep_view()),
{
    d.insert("agent-health-port", signed_decimal_string(AGENT_HEALTH_PORT as i64).as_str());
    d.insert("enable-health-checking", "true");
    d.insert("enable-endpoint-health-checking", "true");
    d.insert("operator-api-serve-addr", "127.0.0.1:9234");
    d.insert("debug", "false");
    d.insert("monitor-aggregation", "medium");
    d.insert("monitor-aggregation-interval", "5s");
    d.insert("monitor-aggregation-flags", "all");
    d.insert("preallocate-bpf-maps", "false");
    d.insert("bpf-map-dynamic-size-ratio", "0.0025");
}

/// Every key of a config.
pub open spec fn data_view(cfg: EffectiveConfigView) -> Map<Seq<char>, Seq<char>> {
    let d = with_identity(Map::empty(), cfg);
    let d = with_datapath(d, cfg);
    let d = with_families(d, cfg);
    let d = with_ipam(d, cfg);
    let d = with_services(d, cfg);
    let d = with_mtu(d, cfg);
    let d = with_encryption(d, cfg);
    let d = with_load_balancing(d, cfg);
    let d = with_proxy(d, cfg);
    let d = with_cni(d);
    with_operations(d)
}

/// The config keys themselves. Split out so that they can be read without
/// digging through an object.
pub fn data(cfg: &EffectiveConfig) -> (r: StringMap)
    ensures
        r.deep_view() == data_view(cfg.deep_view()),
{
    let mut d = StringMap::new();
    set_identity(&mut d, cfg);
    set_datapath(&mut d, cfg);
    set_families(&mut d, cfg);
    set_ipam(&mut d, cfg);
    set_services(&mut d, cfg);
    set_mtu(&mut d, cfg);
    set_encryption(&mut d, cfg);
    set_load_balancing(&mut d, cfg);
    set_proxy(&mut d, cfg);
    set_cni(&mut d);
    set_operations(&mut d);
    d
}

/// The ConfigMap.
pub open spec fn config_map_view(cfg: EffectiveConfigView) -> ConfigMapView {
    ConfigMapView { metadata: meta_view(cfg, CONFIG_MAP@, seq![]), data: Some(data_view(cfg)) }
}

/// The ConfigMap, ready to apply.
pub open spec fn render_view(cfg: EffectiveConfigView) -> RenderedView {
    typed_view(ObjectView::ConfigMap(config_map_view(cfg)))
}

/// The ConfigMap, ready to apply.
pub fn render(cfg: &EffectiveConfig) -> (r: Rendered)
    ensures
        r.deep_view() == render_view(cfg.deep_view()),
{
    typed(
        Object::ConfigMap(
            ConfigMap { metadata: meta(cfg, CONFIG_MAP, &[]), data: Some(data(cfg)) },
        ),
    )
}

} // verus!
