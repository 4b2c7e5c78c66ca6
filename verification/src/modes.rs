//! Mode resolution: `NetworkSpec` (sparse, mode-driven) -> [`EffectiveConfig`]
//! (dense, every knob concrete).
//!
//! This is the whole of the operator's policy. The rule: **`mode` sets defaults;
//! any explicitly set `spec.cilium.*` field overrides its mode default.** Modes
//! are presets, not a straitjacket. The rules a resolved config has to meet
//! stand in [`validation`].

use vstd::prelude::*;

use crate::crd::{
    Announce, BgpSpec, BgpSpecView, CiliumSpec, CiliumSpecView, EncryptionSpecView, EncryptionType,
    EnvoySpecView, HostRouting, IpamMode, IpamSpecView, LoadBalancerSpecView, Mode, Network,
    NetworkSpec, NetworkSpecView, NetworkView, RoutingMode, RoutingSpecView, NETWORK_NAME,
};
use crate::text::{cat, cat3, chars_of, clone_option, clone_strings, string_or};

pub mod laws;
pub mod validation;

use self::validation::validate;
pub use self::validation::{ValidationError, ValidationErrorView};

verus! {

use crate::modes::validation::violation_of;
use crate::text::given;

/// Cilium version installed when the CR does not pin one.
pub const DEFAULT_CILIUM_VERSION: &'static str = "1.19.6";

/// Image registry prefix used when the CR does not override it.
pub const DEFAULT_REGISTRY: &'static str = "quay.io/cilium";

/// `cilium-envoy` tag paired with the Cilium 1.19 series.
///
/// Envoy is versioned independently of Cilium: the tag holds an Envoy version, a
/// build number and a commit sha, none of it derivable from
/// `spec.cilium.version`. Bump this alongside [`DEFAULT_CILIUM_VERSION`], or
/// override it per cluster with `spec.cilium.envoy.image`.
pub const DEFAULT_ENVOY_TAG: &'static str =
    "v1.36.9-1782267392-edeb3f2af56c37c407efa1f63f0b32f595399bbc";

/// Namespace every rendered object lands in.
pub const NAMESPACE: &'static str = "kube-system";

/// Apiserver port dialled when the CR does not give one.
pub const DEFAULT_K8S_SERVICE_PORT: u16 = 6443;

/// Cluster name used when the CR does not give one.
pub const DEFAULT_CLUSTER_NAME: &'static str = "default";

/// A fully resolved cluster network. Every field the render layer needs, with
/// no `Option` left to interpret.
#[derive(Debug, PartialEq, Eq)]
pub struct EffectiveConfig {
    /// Name of the owning `Network` object (for owner references and labels).
    pub network_name: String,
    /// `metadata.uid` of the owning `Network`, when reconciling a live object.
    pub network_uid: Option<String>,
    pub mode: Mode,
    pub cluster_network: Vec<String>,
    pub service_network: Vec<String>,
    pub version: String,
    pub registry: String,
    pub ipam: IpamMode,
    pub cluster_pool_ipv4_mask_size: u8,
    pub routing: RoutingMode,
    /// Native routing only: program per-node routes for directly-reachable nodes.
    pub auto_direct_node_routes: bool,
    /// 0 means auto-detect.
    pub mtu: i32,
    pub kube_proxy_replacement: bool,
    pub host_routing: HostRouting,
    pub encryption: EncryptionType,
    pub k8s_service_host: String,
    pub k8s_service_port: u16,
    pub lb_ipam: bool,
    pub lb_pools: Vec<String>,
    pub announce: Announce,
    pub bgp_local_asn: i64,
    pub bgp_peers: Vec<(String, i64)>,
    pub envoy: bool,
    pub envoy_image: String,
    pub cluster_name: String,
    pub cluster_id: u32,
}

/// What an [`EffectiveConfig`] holds.
#[verifier::ext_equal]
pub struct EffectiveConfigView {
    pub network_name: Seq<char>,
    pub network_uid: Option<Seq<char>>,
    pub mode: Mode,
    pub cluster_network: Seq<Seq<char>>,
    pub service_network: Seq<Seq<char>>,
    pub version: Seq<char>,
    pub registry: Seq<char>,
    pub ipam: IpamMode,
    pub cluster_pool_ipv4_mask_size: u8,
    pub routing: RoutingMode,
    pub auto_direct_node_routes: bool,
    pub mtu: i32,
    pub kube_proxy_replacement: bool,
    pub host_routing: HostRouting,
    pub encryption: EncryptionType,
    pub k8s_service_host: Seq<char>,
    pub k8s_service_port: u16,
    pub lb_ipam: bool,
    pub lb_pools: Seq<Seq<char>>,
    pub announce: Announce,
    pub bgp_local_asn: i64,
    pub bgp_peers: Seq<(Seq<char>, i64)>,
    pub envoy: bool,
    pub envoy_image: Seq<char>,
    pub cluster_name: Seq<char>,
    pub cluster_id: u32,
}

impl DeepView for EffectiveConfig {
    type V = EffectiveConfigView;

    open spec fn deep_view(&self) -> EffectiveConfigView {
        EffectiveConfigView {
            network_name: self.network_name.deep_view(),
            network_uid: self.network_uid.deep_view(),
            mode: self.mode,
            cluster_network: self.cluster_network.deep_view(),
            service_network: self.service_network.deep_view(),
            version: self.version.deep_view(),
            registry: self.registry.deep_view(),
            ipam: self.ipam,
            cluster_pool_ipv4_mask_size: self.cluster_pool_ipv4_mask_size,
            routing: self.routing,
            auto_direct_node_routes: self.auto_direct_node_routes,
            mtu: self.mtu,
            kube_proxy_replacement: self.kube_proxy_replacement,
            host_routing: self.host_routing,
            encryption: self.encryption,
            k8s_service_host: self.k8s_service_host.deep_view(),
            k8s_service_port: self.k8s_service_port,
            lb_ipam: self.lb_ipam,
            lb_pools: self.lb_pools.deep_view(),
            announce: self.announce,
            bgp_local_asn: self.bgp_local_asn,
            bgp_peers: self.bgp_peers.deep_view(),
            envoy: self.envoy,
            envoy_image: self.envoy_image.deep_view(),
            cluster_name: self.cluster_name.deep_view(),
            cluster_id: self.cluster_id,
        }
    }
}

fn clone_peers(peers: &Vec<(String, i64)>) -> (r: Vec<(String, i64)>)
    ensures
        r.deep_view() == peers.deep_view(),
{
    let mut out: Vec<(String, i64)> = Vec::new();
    let mut i: usize = 0;
    while i < peers.len()
        invariant
            i <= peers.len(),
            out@.len() == i,
            forall|j: int|
                0 <= j < i ==> (#[trigger] out@[j]).deep_view() == peers@[j].deep_view(),
        decreases peers.len() - i,
    {
        out.push((peers[i].0.clone(), peers[i].1));
        i = i + 1;
    }
    assert(out.deep_view() =~= peers.deep_view());
    out
}

impl Clone for EffectiveConfig {
    fn clone(&self) -> (r: EffectiveConfig)
        ensures
            r.deep_view() == self.deep_view(),
    {
        EffectiveConfig {
            network_name: self.network_name.clone(),
            network_uid: clone_option(&self.network_uid),
            mode: self.mode,
            cluster_network: clone_strings(&self.cluster_network),
            service_network: clone_strings(&self.service_network),
            version: self.version.clone(),
            registry: self.registry.clone(),
            ipam: self.ipam,
            cluster_pool_ipv4_mask_size: self.cluster_pool_ipv4_mask_size,
            routing: self.routing,
            auto_direct_node_routes: self.auto_direct_node_routes,
            mtu: self.mtu,
            kube_proxy_replacement: self.kube_proxy_replacement,
            host_routing: self.host_routing,
            encryption: self.encryption,
            k8s_service_host: self.k8s_service_host.clone(),
            k8s_service_port: self.k8s_service_port,
            lb_ipam: self.lb_ipam,
            lb_pools: clone_strings(&self.lb_pools),
            announce: self.announce,
            bgp_local_asn: self.bgp_local_asn,
            bgp_peers: clone_peers(&self.bgp_peers),
            envoy: self.envoy,
            envoy_image: self.envoy_image.clone(),
            cluster_name: self.cluster_name.clone(),
            cluster_id: self.cluster_id,
        }
    }
}

/// A version as Cilium tags its images: with a leading `v`.
pub open spec fn version_tag(version: Seq<char>) -> Seq<char> {
    if version.len() > 0 && version[0] == 'v' {
        version
    } else {
        "v"@ + version
    }
}

impl EffectiveConfigView {
    /// The agent image.
    pub open spec fn agent_image(self) -> Seq<char> {
        self.registry + "/cilium:"@ + version_tag(self.version)
    }

    /// The operator image.
    pub open spec fn operator_image(self) -> Seq<char> {
        self.registry + "/operator-generic:"@ + version_tag(self.version)
    }
}

impl EffectiveConfig {
    /// The agent/operator image tag family — `v1.19.6`, Cilium's own convention.
    pub fn image_tag(&self) -> (r: String)
        ensures
            r@ == version_tag(self.version@),
    {
        let chars = chars_of(self.version.as_str());
        if chars.len() > 0 && chars[0] == 'v' {
            self.version.clone()
        } else {
            cat("v", self.version.as_str())
        }
    }

    /// The agent image.
    pub fn agent_image(&self) -> (r: String)
        ensures
            r@ == self.deep_view().agent_image(),
    {
        cat3(self.registry.as_str(), "/cilium:", self.image_tag().as_str())
    }

    /// The operator image. The generic operator — no cloud IPAM, which is what
    /// cluster-pool and kubernetes IPAM both use.
    pub fn operator_image(&self) -> (r: String)
        ensures
            r@ == self.deep_view().operator_image(),
    {
        cat3(self.registry.as_str(), "/operator-generic:", self.image_tag().as_str())
    }

    /// Whether any BGP object should be rendered.
    pub fn bgp_enabled(&self) -> (r: bool)
        ensures
            r == (self.announce == Announce::Bgp),
    {
        self.announce == Announce::Bgp
    }
}

// --- the mode table --------------------------------------------------------

/// One row of the mode table.
#[derive(Clone, Copy, Debug, PartialEq, Eq, Structural)]
pub struct ModeDefaults {
    pub ipam: IpamMode,
    pub cluster_pool_ipv4_mask_size: u8,
    pub routing: RoutingMode,
    pub mtu: i32,
    pub kube_proxy_replacement: bool,
    pub host_routing: HostRouting,
    pub encryption: EncryptionType,
    pub lb_ipam: bool,
    pub announce: Announce,
}

/// The row of a mode: the same for all but routing, encryption, LB-IPAM and
/// announcing.
pub open spec fn mode_row(mode: Mode) -> ModeDefaults {
    ModeDefaults {
        ipam: IpamMode::ClusterPool,
        cluster_pool_ipv4_mask_size: 24,
        routing: if mode == Mode::Native || mode == Mode::Bgp {
            RoutingMode::Native
        } else {
            RoutingMode::Tunnel
        },
        mtu: 0,
        kube_proxy_replacement: true,
        host_routing: HostRouting::Bpf,
        encryption: if mode == Mode::Encrypted {
            EncryptionType::Wireguard
        } else {
            EncryptionType::Off
        },
        lb_ipam: mode == Mode::Bgp || mode == Mode::BareMetal,
        announce: match mode {
            Mode::Bgp => Announce::Bgp,
            Mode::BareMetal => Announce::L2,
            _ => Announce::Off,
        },
    }
}

impl ModeDefaults {
    /// The shared baseline every mode starts from; each mode then changes only
    /// the cells where its row differs.
    pub fn base() -> (r: ModeDefaults)
        ensures
            r == mode_row(Mode::Overlay),
    {
        ModeDefaults {
            ipam: IpamMode::ClusterPool,
            cluster_pool_ipv4_mask_size: 24,
            routing: RoutingMode::Tunnel,
            mtu: 0,
            kube_proxy_replacement: true,
            host_routing: HostRouting::Bpf,
            encryption: EncryptionType::Off,
            lb_ipam: false,
            announce: Announce::Off,
        }
    }
}

/// The defaults of a mode.
pub fn defaults_for(mode: Mode) -> (r: ModeDefaults)
    ensures
        r == mode_row(mode),
{
    let mut d = ModeDefaults::base();
    match mode {
        Mode::Overlay => {},
        Mode::Native => {
            d.routing = RoutingMode::Native;
        },
        Mode::Bgp => {
            d.routing = RoutingMode::Native;
            d.lb_ipam = true;
            d.announce = Announce::Bgp;
        },
        Mode::Encrypted => {
            d.encryption = EncryptionType::Wireguard;
        },
        Mode::BareMetal => {
            d.lb_ipam = true;
            d.announce = Announce::L2;
        },
    }
    d
}

// --- resolution ------------------------------------------------------------

/// The overrides of a spec; one that gives none overrides nothing.
pub open spec fn cilium_of(spec: NetworkSpecView) -> CiliumSpecView {
    given(spec.cilium, CiliumSpecView::unset())
}

/// The IPAM overrides.
pub open spec fn ipam_of(spec: NetworkSpecView) -> IpamSpecView {
    given(cilium_of(spec).ipam, IpamSpecView::unset())
}

/// The routing overrides.
pub open spec fn routing_of(spec: NetworkSpecView) -> RoutingSpecView {
    given(cilium_of(spec).routing, RoutingSpecView::unset())
}

/// The encryption overrides.
pub open spec fn encryption_of(spec: NetworkSpecView) -> EncryptionSpecView {
    given(cilium_of(spec).encryption, EncryptionSpecView::unset())
}

/// The load balancer overrides.
pub open spec fn load_balancer_of(spec: NetworkSpecView) -> LoadBalancerSpecView {
    given(cilium_of(spec).load_balancer, LoadBalancerSpecView::unset())
}

/// The BGP settings.
pub open spec fn bgp_of(spec: NetworkSpecView) -> BgpSpecView {
    given(load_balancer_of(spec).bgp, BgpSpecView::unset())
}

/// The neighbours: address and autonomous system.
pub open spec fn peers_view(bgp: BgpSpecView) -> Seq<(Seq<char>, i64)> {
    Seq::new(bgp.peers.len(), |i: int| (bgp.peers[i].address, bgp.peers[i].asn))
}

/// The Envoy overrides.
pub open spec fn envoy_of(spec: NetworkSpecView) -> EnvoySpecView {
    given(cilium_of(spec).envoy, EnvoySpecView::unset())
}

/// The Envoy image under a registry.
pub open spec fn default_envoy_image(registry: Seq<char>) -> Seq<char> {
    registry + "/cilium-envoy:"@ + DEFAULT_ENVOY_TAG@
}

/// The config a spec asks for: each field as it is set, else as its mode has it.
pub open spec fn effective(spec: NetworkSpecView) -> EffectiveConfigView {
    let row = mode_row(spec.mode);
    let c = cilium_of(spec);
    let lb = load_balancer_of(spec);
    let routing = given(routing_of(spec).mode, row.routing);
    let registry = given(c.registry, DEFAULT_REGISTRY@);
    EffectiveConfigView {
        network_name: NETWORK_NAME@,
        network_uid: None,
        mode: spec.mode,
        cluster_network: spec.cluster_network,
        service_network: spec.service_network,
        version: given(c.version, DEFAULT_CILIUM_VERSION@),
        registry,
        ipam: given(ipam_of(spec).mode, row.ipam),
        cluster_pool_ipv4_mask_size: given(
            ipam_of(spec).cluster_pool_ipv4_mask_size,
            row.cluster_pool_ipv4_mask_size,
        ),
        routing,
        auto_direct_node_routes: routing == RoutingMode::Native,
        mtu: given(c.mtu, row.mtu),
        kube_proxy_replacement: given(c.kube_proxy_replacement, row.kube_proxy_replacement),
        host_routing: given(c.host_routing, row.host_routing),
        encryption: given(encryption_of(spec).kind, row.encryption),
        k8s_service_host: given(c.k8s_service_host, Seq::empty()),
        k8s_service_port: given(c.k8s_service_port, DEFAULT_K8S_SERVICE_PORT),
        lb_ipam: given(lb.ipam, row.lb_ipam),
        lb_pools: given(lb.pools, Seq::empty()),
        announce: given(lb.announce, row.announce),
        bgp_local_asn: given(bgp_of(spec).local_asn, 0),
        bgp_peers: peers_view(bgp_of(spec)),
        envoy: given(envoy_of(spec).enabled, false),
        envoy_image: given(envoy_of(spec).image, default_envoy_image(registry)),
        cluster_name: given(c.cluster_name, DEFAULT_CLUSTER_NAME@),
        cluster_id: given(c.cluster_id, 0),
    }
}

/// The config a live object asks for: that of its spec, under its name and uid.
pub open spec fn effective_network(net: NetworkView) -> EffectiveConfigView {
    EffectiveConfigView {
        network_name: given(net.metadata.name, NETWORK_NAME@),
        network_uid: net.metadata.uid,
        ..effective(net.spec)
    }
}

fn peers_of(bgp: &BgpSpec) -> (r: Vec<(String, i64)>)
    ensures
        r.deep_view() == peers_view(bgp.deep_view()),
{
    let mut out: Vec<(String, i64)> = Vec::new();
    let mut i: usize = 0;
    while i < bgp.peers.len()
        invariant
            i <= bgp.peers.len(),
            out@.len() == i,
            forall|j: int|
                0 <= j < i ==> (#[trigger] out@[j]).deep_view() == (
                    bgp.deep_view().peers[j].address,
                    bgp.deep_view().peers[j].asn,
                ),
        decreases bgp.peers.len() - i,
    {
        out.push((bgp.peers[i].address.clone(), bgp.peers[i].asn));
        i = i + 1;
    }
    assert(out.deep_view() =~= peers_view(bgp.deep_view()));
    out
}

fn ipam_settings(c: &CiliumSpec, d: &ModeDefaults) -> (r: (IpamMode, u8))
    ensures
        ({
            let i = given(c.deep_view().ipam, IpamSpecView::unset());
            r == (
                given(i.mode, d.ipam),
                given(i.cluster_pool_ipv4_mask_size, d.cluster_pool_ipv4_mask_size),
            )
        }),
{
    match &c.ipam {
        Some(i) => (
            i.mode.unwrap_or(d.ipam),
            i.cluster_pool_ipv4_mask_size.unwrap_or(d.cluster_pool_ipv4_mask_size),
        ),
        None => (d.ipam, d.cluster_pool_ipv4_mask_size),
    }
}

fn routing_setting(c: &CiliumSpec, d: &ModeDefaults) -> (r: RoutingMode)
    ensures
        r == given(given(c.deep_view().routing, RoutingSpecView::unset()).mode, d.routing),
{
    match &c.routing {
        Some(routing) => routing.mode.unwrap_or(d.routing),
        None => d.routing,
    }
}

fn encryption_setting(c: &CiliumSpec, d: &ModeDefaults) -> (r: EncryptionType)
    ensures
        r == given(
            given(c.deep_view().encryption, EncryptionSpecView::unset()).kind,
            d.encryption,
        ),
{
    match &c.encryption {
        Some(encryption) => encryption.kind.unwrap_or(d.encryption),
        None => d.encryption,
    }
}

fn load_balancer_settings(c: &CiliumSpec, d: &ModeDefaults) -> (r: (bool, Vec<String>, Announce))
    ensures
        ({
            let lb = given(c.deep_view().load_balancer, LoadBalancerSpecView::unset());
            &&& r.0 == given(lb.ipam, d.lb_ipam)
            &&& r.1.deep_view() == given(lb.pools, Seq::empty())
            &&& r.2 == given(lb.announce, d.announce)
        }),
{
    let none: Vec<String> = Vec::new();
    assert(none.deep_view() =~= Seq::empty());
    match &c.load_balancer {
        Some(lb) => {
            let pools = match &lb.pools {
                Some(pools) => clone_strings(pools),
                None => none,
            };
            (lb.ipam.unwrap_or(d.lb_ipam), pools, lb.announce.unwrap_or(d.announce))
        },
        None => (d.lb_ipam, none, d.announce),
    }
}

fn bgp_settings(c: &CiliumSpec) -> (r: (i64, Vec<(String, i64)>))
    ensures
        ({
            let lb = given(c.deep_view().load_balancer, LoadBalancerSpecView::unset());
            let bgp = given(lb.bgp, BgpSpecView::unset());
            &&& r.0 == given(bgp.local_asn, 0)
            &&& r.1.deep_view() == peers_view(bgp)
        }),
{
    let no_bgp = BgpSpec::default();
    let bgp = match &c.load_balancer {
        Some(lb) => {
            match &lb.bgp {
                Some(bgp) => bgp,
                None => &no_bgp,
            }
        },
        None => &no_bgp,
    };
    (bgp.local_asn.unwrap_or(0), peers_of(bgp))
}

fn envoy_settings(c: &CiliumSpec, registry: &str) -> (r: (bool, String))
    ensures
        ({
            let envoy = given(c.deep_view().envoy, EnvoySpecView::unset());
            &&& r.0 == given(envoy.enabled, false)
            &&& r.1@ == given(envoy.image, default_envoy_image(registry@))
        }),
{
    let default_image = cat3(registry, "/cilium-envoy:", DEFAULT_ENVOY_TAG);
    match &c.envoy {
        Some(envoy) => (
            envoy.enabled.unwrap_or(false),
            string_or(&envoy.image, default_image.as_str()),
        ),
        None => (false, default_image),
    }
}

/// Apply the mode defaults, then every explicit override.
pub fn fill(spec: &NetworkSpec) -> (r: EffectiveConfig)
    ensures
        r.deep_view() == effective(spec.deep_view()),
{
    let d = defaults_for(spec.mode);
    let no_cilium = CiliumSpec::default();
    let c = match &spec.cilium {
        Some(c) => c,
        None => &no_cilium,
    };
    assert(c.deep_view() == cilium_of(spec.deep_view()));
    let registry = string_or(&c.registry, DEFAULT_REGISTRY);
    let (ipam, cluster_pool_ipv4_mask_size) = ipam_settings(c, &d);
    let routing = routing_setting(c, &d);
    let (lb_ipam, lb_pools, announce) = load_balancer_settings(c, &d);
    let (bgp_local_asn, bgp_peers) = bgp_settings(c);
    let (envoy, envoy_image) = envoy_settings(c, registry.as_str());
    let k8s_service_host = match &c.k8s_service_host {
        Some(host) => host.clone(),
        None => String::new(),
    };
    let r = EffectiveConfig {
        network_name: NETWORK_NAME.to_string(),
        network_uid: None,
        mode: spec.mode,
        cluster_network: clone_strings(&spec.cluster_network),
        service_network: clone_strings(&spec.service_network),
        version: string_or(&c.version, DEFAULT_CILIUM_VERSION),
        registry,
        ipam,
        cluster_pool_ipv4_mask_size,
        routing,
        // Direct node routes only mean anything without an overlay, and only
        // help when the nodes actually share a segment — which is what every
        // native-routing mode in the table assumes.
        auto_direct_node_routes: routing == RoutingMode::Native,
        mtu: c.mtu.unwrap_or(d.mtu),
        kube_proxy_replacement: c.kube_proxy_replacement.unwrap_or(d.kube_proxy_replacement),
        host_routing: c.host_routing.unwrap_or(d.host_routing),
        encryption: encryption_setting(c, &d),
        k8s_service_host,
        k8s_service_port: c.k8s_service_port.unwrap_or(DEFAULT_K8S_SERVICE_PORT),
        lb_ipam,
        lb_pools,
        announce,
        bgp_local_asn,
        bgp_peers,
        envoy,
        envoy_image,
        cluster_name: string_or(&c.cluster_name, DEFAULT_CLUSTER_NAME),
        cluster_id: c.cluster_id.unwrap_or(0),
    };
    assert(r.deep_view() =~= effective(spec.deep_view()));
    r
}

/// Resolve a bare spec. Applies the mode defaults, then every explicit override,
/// then validates the result as a whole.
pub fn resolve(spec: &NetworkSpec) -> (r: Result<EffectiveConfig, ValidationError>)
    ensures
        r is Ok <==> violation_of(effective(spec.deep_view())) is None,
        r matches Ok(cfg) ==> cfg.deep_view() == effective(spec.deep_view()),
        r matches Err(e) ==> violation_of(effective(spec.deep_view())) == Some(e.deep_view()),
{
    let cfg = fill(spec);
    match validate(&cfg) {
        Ok(()) => Ok(cfg),
        Err(e) => Err(e),
    }
}

/// Resolve a live `Network` object, carrying its name/uid through for owner refs.
pub fn resolve_network(net: &Network) -> (r: Result<EffectiveConfig, ValidationError>)
    ensures
        r is Ok <==> violation_of(effective(net.deep_view().spec)) is None,
        r matches Ok(cfg) ==> cfg.deep_view() == effective_network(net.deep_view()),
        r matches Err(e) ==> violation_of(effective(net.deep_view().spec)) == Some(e.deep_view()),
{
    match resolve(&net.spec) {
        Ok(cfg) => {
            let mut cfg = cfg;
            cfg.network_name = string_or(&net.metadata.name, NETWORK_NAME);
            cfg.network_uid = clone_option(&net.metadata.uid);
            assert(cfg.deep_view() =~~= effective_network(net.deep_view()));
            Ok(cfg)
        },
        Err(e) => Err(e),
    }
}

} // verus!
