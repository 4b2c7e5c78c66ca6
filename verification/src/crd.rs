//! The `Network` custom resource — the single source of truth for the cluster
//! network. Cluster-scoped, conventionally named `cluster`, with a `/status`
//! subresource carrying cluster-operator-style conditions.
//!
//! Everything under `spec.cilium` is optional: `spec.mode` supplies the default
//! for each field and an explicitly set field overrides its mode default. The
//! resolution lives in [`crate::modes`]; this module is only the shape.

use vstd::prelude::*;

use crate::k8s::meta::{Condition, ConditionView, ObjectMeta, ObjectMetaView};
use crate::text::{clone_option, clone_strings};

pub mod conditions;

verus! {

/// Conventional name of the singleton `Network` object.
pub const NETWORK_NAME: &'static str = "cluster";

/// The CNI to install. Cilium is the only one.
#[derive(Clone, Copy, Debug, Default, PartialEq, Eq, Structural)]
pub enum Cni {
    #[default]
    Cilium,
}

impl DeepView for Cni {
    type V = Cni;

    open spec fn deep_view(&self) -> Cni {
        *self
    }
}

/// Install-time profile: a named set of defaults.
#[derive(Clone, Copy, Debug, Default, PartialEq, Eq, Structural)]
pub enum Mode {
    /// VXLAN overlay, cluster-pool IPAM, eBPF kube-proxy replacement.
    #[default]
    Overlay,
    /// Native routing with direct node routes; nodes share an L2.
    Native,
    /// Native routing plus the Cilium BGP control plane; LB-IPAM + BGP announce.
    Bgp,
    /// Overlay plus transparent WireGuard pod-to-pod encryption.
    Encrypted,
    /// Overlay plus LB-IPAM with L2/ARP announcements — bare metal, no cloud LB.
    BareMetal,
}

impl DeepView for Mode {
    type V = Mode;

    open spec fn deep_view(&self) -> Mode {
        *self
    }
}

impl Mode {
    /// The name it goes by in a manifest.
    pub open spec fn name(self) -> Seq<char> {
        match self {
            Mode::Overlay => "overlay"@,
            Mode::Native => "native"@,
            Mode::Bgp => "bgp"@,
            Mode::Encrypted => "encrypted"@,
            Mode::BareMetal => "bare-metal"@,
        }
    }

    /// The name it goes by in a manifest.
    pub fn as_str(self) -> (r: &'static str)
        ensures
            r@ == self.name(),
    {
        match self {
            Mode::Overlay => "overlay",
            Mode::Native => "native",
            Mode::Bgp => "bgp",
            Mode::Encrypted => "encrypted",
            Mode::BareMetal => "bare-metal",
        }
    }
}

impl Mode {
    /// The datapath family that a mode starts from.
    pub open spec fn family(self) -> RoutingMode {
        if self == Mode::Native || self == Mode::Bgp {
            RoutingMode::Native
        } else {
            RoutingMode::Tunnel
        }
    }

    /// The datapath family. Crossing this boundary is a disruptive re-plumb, so
    /// it is the part of `mode` that is immutable after install.
    pub fn datapath(self) -> (r: RoutingMode)
        ensures
            r == self.family(),
    {
        match self {
            Mode::Overlay | Mode::Encrypted | Mode::BareMetal => RoutingMode::Tunnel,
            Mode::Native | Mode::Bgp => RoutingMode::Native,
        }
    }
}

/// Where the pod addresses of a node come from.
#[derive(Clone, Copy, Debug, Default, PartialEq, Eq, Structural)]
pub enum IpamMode {
    /// Cilium carves per-node CIDRs out of `clusterNetwork` itself.
    #[default]
    ClusterPool,
    /// Per-node CIDRs come from `Node.spec.podCIDR`.
    Kubernetes,
}

impl DeepView for IpamMode {
    type V = IpamMode;

    open spec fn deep_view(&self) -> IpamMode {
        *self
    }
}

impl IpamMode {
    /// The name it goes by in a manifest.
    pub open spec fn name(self) -> Seq<char> {
        match self {
            IpamMode::ClusterPool => "cluster-pool"@,
            IpamMode::Kubernetes => "kubernetes"@,
        }
    }

    /// The name it goes by in a manifest.
    pub fn as_str(self) -> (r: &'static str)
        ensures
            r@ == self.name(),
    {
        match self {
            IpamMode::ClusterPool => "cluster-pool",
            IpamMode::Kubernetes => "kubernetes",
        }
    }
}

/// How pod traffic crosses the network between nodes.
#[derive(Clone, Copy, Debug, Default, PartialEq, Eq, Structural)]
pub enum RoutingMode {
    /// VXLAN encapsulation.
    #[default]
    Tunnel,
    /// Native routing — the underlay carries pod traffic.
    Native,
}

impl DeepView for RoutingMode {
    type V = RoutingMode;

    open spec fn deep_view(&self) -> RoutingMode {
        *self
    }
}

impl RoutingMode {
    /// The name it goes by in a manifest.
    pub open spec fn name(self) -> Seq<char> {
        match self {
            RoutingMode::Tunnel => "tunnel"@,
            RoutingMode::Native => "native"@,
        }
    }

    /// The name it goes by in a manifest.
    pub fn as_str(self) -> (r: &'static str)
        ensures
            r@ == self.name(),
    {
        match self {
            RoutingMode::Tunnel => "tunnel",
            RoutingMode::Native => "native",
        }
    }
}

/// Whether packets to the host take the eBPF fast path.
#[derive(Clone, Copy, Debug, Default, PartialEq, Eq, Structural)]
pub enum HostRouting {
    #[default]
    Bpf,
    Legacy,
}

impl DeepView for HostRouting {
    type V = HostRouting;

    open spec fn deep_view(&self) -> HostRouting {
        *self
    }
}

/// Pod-to-pod encryption.
#[derive(Clone, Copy, Debug, Default, PartialEq, Eq, Structural)]
pub enum EncryptionType {
    #[default]
    Off,
    Wireguard,
    /// Known, and refused: its keys are not managed.
    Ipsec,
}

impl DeepView for EncryptionType {
    type V = EncryptionType;

    open spec fn deep_view(&self) -> EncryptionType {
        *self
    }
}

impl EncryptionType {
    /// The name it goes by in a manifest.
    pub open spec fn name(self) -> Seq<char> {
        match self {
            EncryptionType::Off => "none"@,
            EncryptionType::Wireguard => "wireguard"@,
            EncryptionType::Ipsec => "ipsec"@,
        }
    }

    /// The name it goes by in a manifest.
    pub fn as_str(self) -> (r: &'static str)
        ensures
            r@ == self.name(),
    {
        match self {
            EncryptionType::Off => "none",
            EncryptionType::Wireguard => "wireguard",
            EncryptionType::Ipsec => "ipsec",
        }
    }
}

/// How allocated VIPs reach the network.
#[derive(Clone, Copy, Debug, Default, PartialEq, Eq, Structural)]
pub enum Announce {
    #[default]
    Off,
    /// Gratuitous ARP / NDP from the elected node.
    L2,
    /// Advertised to peers by the Cilium BGP control plane.
    Bgp,
}

impl DeepView for Announce {
    type V = Announce;

    open spec fn deep_view(&self) -> Announce {
        *self
    }
}

/// Overrides of the IPAM defaults.
#[derive(Clone, Debug, PartialEq)]
pub struct IpamSpec {
    pub mode: Option<IpamMode>,
    /// Per-node pod CIDR mask carved out of `clusterNetwork`.
    pub cluster_pool_ipv4_mask_size: Option<u8>,
}

/// What a [`IpamSpec`] holds.
#[verifier::ext_equal]
pub struct IpamSpecView {
    pub mode: Option<IpamMode>,
    pub cluster_pool_ipv4_mask_size: Option<u8>,
}

impl DeepView for IpamSpec {
    type V = IpamSpecView;

    open spec fn deep_view(&self) -> IpamSpecView {
        IpamSpecView {
            mode: self.mode.deep_view(),
            cluster_pool_ipv4_mask_size: self.cluster_pool_ipv4_mask_size.deep_view(),
        }
    }
}

impl IpamSpecView {
    /// Nothing set.
    pub open spec fn unset() -> IpamSpecView {
        IpamSpecView {
            mode: None,
            cluster_pool_ipv4_mask_size: None,
        }
    }
}

impl Default for IpamSpec {
    fn default() -> (r: IpamSpec)
        ensures
            r.deep_view() == IpamSpecView::unset(),
    {
        IpamSpec {
            mode: None,
            cluster_pool_ipv4_mask_size: None,
        }
    }
}

/// Overrides of the routing defaults.
#[derive(Clone, Debug, PartialEq)]
pub struct RoutingSpec {
    pub mode: Option<RoutingMode>,
}

/// What a [`RoutingSpec`] holds.
#[verifier::ext_equal]
pub struct RoutingSpecView {
    pub mode: Option<RoutingMode>,
}

impl DeepView for RoutingSpec {
    type V = RoutingSpecView;

    open spec fn deep_view(&self) -> RoutingSpecView {
        RoutingSpecView {
            mode: self.mode.deep_view(),
        }
    }
}

impl RoutingSpecView {
    /// Nothing set.
    pub open spec fn unset() -> RoutingSpecView {
        RoutingSpecView {
            mode: None,
        }
    }
}

impl Default for RoutingSpec {
    fn default() -> (r: RoutingSpec)
        ensures
            r.deep_view() == RoutingSpecView::unset(),
    {
        RoutingSpec {
            mode: None,
        }
    }
}

/// Overrides of the encryption defaults.
#[derive(Clone, Debug, PartialEq)]
pub struct EncryptionSpec {
    pub kind: Option<EncryptionType>,
}

/// What a [`EncryptionSpec`] holds.
#[verifier::ext_equal]
pub struct EncryptionSpecView {
    pub kind: Option<EncryptionType>,
}

impl DeepView for EncryptionSpec {
    type V = EncryptionSpecView;

    open spec fn deep_view(&self) -> EncryptionSpecView {
        EncryptionSpecView {
            kind: self.kind.deep_view(),
        }
    }
}

impl EncryptionSpecView {
    /// Nothing set.
    pub open spec fn unset() -> EncryptionSpecView {
        EncryptionSpecView {
            kind: None,
        }
    }
}

impl Default for EncryptionSpec {
    fn default() -> (r: EncryptionSpec)
        ensures
            r.deep_view() == EncryptionSpecView::unset(),
    {
        EncryptionSpec {
            kind: None,
        }
    }
}

/// A BGP neighbour.
#[derive(Clone, Debug, PartialEq)]
pub struct BgpPeer {
    pub address: String,
    pub asn: i64,
}

/// What a [`BgpPeer`] holds.
#[verifier::ext_equal]
pub struct BgpPeerView {
    pub address: Seq<char>,
    pub asn: i64,
}

impl DeepView for BgpPeer {
    type V = BgpPeerView;

    open spec fn deep_view(&self) -> BgpPeerView {
        BgpPeerView {
            address: self.address.deep_view(),
            asn: self.asn.deep_view(),
        }
    }
}

/// The BGP side of announcing.
#[derive(Clone, Debug, PartialEq)]
pub struct BgpSpec {
    pub local_asn: Option<i64>,
    pub peers: Vec<BgpPeer>,
}

/// What a [`BgpSpec`] holds.
#[verifier::ext_equal]
pub struct BgpSpecView {
    pub local_asn: Option<i64>,
    pub peers: Seq<BgpPeerView>,
}

impl DeepView for BgpSpec {
    type V = BgpSpecView;

    open spec fn deep_view(&self) -> BgpSpecView {
        BgpSpecView {
            local_asn: self.local_asn.deep_view(),
            peers: self.peers.deep_view(),
        }
    }
}

impl BgpSpecView {
    /// Nothing set.
    pub open spec fn unset() -> BgpSpecView {
        BgpSpecView {
            local_asn: None,
            peers: Seq::empty(),
        }
    }
}

impl Default for BgpSpec {
    fn default() -> (r: BgpSpec)
        ensures
            r.deep_view() == BgpSpecView::unset(),
    {
        let r = BgpSpec {
            local_asn: None,
            peers: Vec::new(),
        };
        assert(r.peers.deep_view() =~= Seq::empty());
        r
    }
}

/// Overrides of the load balancer defaults.
#[derive(Clone, Debug, PartialEq)]
pub struct LoadBalancerSpec {
    /// Allocate VIPs for `type: LoadBalancer` Services.
    pub ipam: Option<bool>,
    /// CIDRs to allocate from.
    pub pools: Option<Vec<String>>,
    pub announce: Option<Announce>,
    pub bgp: Option<BgpSpec>,
}

/// What a [`LoadBalancerSpec`] holds.
#[verifier::ext_equal]
pub struct LoadBalancerSpecView {
    pub ipam: Option<bool>,
    pub pools: Option<Seq<Seq<char>>>,
    pub announce: Option<Announce>,
    pub bgp: Option<BgpSpecView>,
}

impl DeepView for LoadBalancerSpec {
    type V = LoadBalancerSpecView;

    open spec fn deep_view(&self) -> LoadBalancerSpecView {
        LoadBalancerSpecView {
            ipam: self.ipam.deep_view(),
            pools: self.pools.deep_view(),
            announce: self.announce.deep_view(),
            bgp: self.bgp.deep_view(),
        }
    }
}

impl LoadBalancerSpecView {
    /// Nothing set.
    pub open spec fn unset() -> LoadBalancerSpecView {
        LoadBalancerSpecView {
            ipam: None,
            pools: None,
            announce: None,
            bgp: None,
        }
    }
}

impl Default for LoadBalancerSpec {
    fn default() -> (r: LoadBalancerSpec)
        ensures
            r.deep_view() == LoadBalancerSpecView::unset(),
    {
        LoadBalancerSpec {
            ipam: None,
            pools: None,
            announce: None,
            bgp: None,
        }
    }
}

/// The standalone `cilium-envoy` DaemonSet. Off by default — Cilium embeds
/// the proxy in the agent unless it is split out.
#[derive(Clone, Debug, PartialEq)]
pub struct EnvoySpec {
    pub enabled: Option<bool>,
    /// The whole image, in place of the default under the registry.
    pub image: Option<String>,
}

/// What a [`EnvoySpec`] holds.
#[verifier::ext_equal]
pub struct EnvoySpecView {
    pub enabled: Option<bool>,
    pub image: Option<Seq<char>>,
}

impl DeepView for EnvoySpec {
    type V = EnvoySpecView;

    open spec fn deep_view(&self) -> EnvoySpecView {
        EnvoySpecView {
            enabled: self.enabled.deep_view(),
            image: self.image.deep_view(),
        }
    }
}

impl EnvoySpecView {
    /// Nothing set.
    pub open spec fn unset() -> EnvoySpecView {
        EnvoySpecView {
            enabled: None,
            image: None,
        }
    }
}

impl Default for EnvoySpec {
    fn default() -> (r: EnvoySpec)
        ensures
            r.deep_view() == EnvoySpecView::unset(),
    {
        EnvoySpec {
            enabled: None,
            image: None,
        }
    }
}

/// Cilium knobs. Every field is an override of the mode's default.
#[derive(Clone, Debug, PartialEq)]
pub struct CiliumSpec {
    /// Image tag. Bumping it triggers a rolling upgrade.
    pub version: Option<String>,
    /// Image registry/repository prefix, for mirrored or air-gapped installs.
    pub registry: Option<String>,
    pub ipam: Option<IpamSpec>,
    pub routing: Option<RoutingSpec>,
    /// MTU; 0 (the default) means auto-detect from the node.
    pub mtu: Option<i32>,
    /// eBPF service handling in place of kube-proxy.
    pub kube_proxy_replacement: Option<bool>,
    pub host_routing: Option<HostRouting>,
    pub encryption: Option<EncryptionSpec>,
    /// The apiserver the agent dials before Services exist. Required.
    pub k8s_service_host: Option<String>,
    pub k8s_service_port: Option<u16>,
    pub load_balancer: Option<LoadBalancerSpec>,
    pub envoy: Option<EnvoySpec>,
    /// Name of the cluster, for ClusterMesh.
    pub cluster_name: Option<String>,
    /// Id of the cluster, for ClusterMesh; at most 255.
    pub cluster_id: Option<u32>,
}

/// What a [`CiliumSpec`] holds.
#[verifier::ext_equal]
pub struct CiliumSpecView {
    pub version: Option<Seq<char>>,
    pub registry: Option<Seq<char>>,
    pub ipam: Option<IpamSpecView>,
    pub routing: Option<RoutingSpecView>,
    pub mtu: Option<i32>,
    pub kube_proxy_replacement: Option<bool>,
    pub host_routing: Option<HostRouting>,
    pub encryption: Option<EncryptionSpecView>,
    pub k8s_service_host: Option<Seq<char>>,
    pub k8s_service_port: Option<u16>,
    pub load_balancer: Option<LoadBalancerSpecView>,
    pub envoy: Option<EnvoySpecView>,
    pub cluster_name: Option<Seq<char>>,
    pub cluster_id: Option<u32>,
}

impl DeepView for CiliumSpec {
    type V = CiliumSpecView;

    open spec fn deep_view(&self) -> CiliumSpecView {
        CiliumSpecView {
            version: self.version.deep_view(),
            registry: self.registry.deep_view(),
            ipam: self.ipam.deep_view(),
            routing: self.routing.deep_view(),
            mtu: self.mtu.deep_view(),
            kube_proxy_replacement: self.kube_proxy_replacement.deep_view(),
            host_routing: self.host_routing.deep_view(),
            encryption: self.encryption.deep_view(),
            k8s_service_host: self.k8s_service_host.deep_view(),
            k8s_service_port: self.k8s_service_port.deep_view(),
            load_balancer: self.load_balancer.deep_view(),
            envoy: self.envoy.deep_view(),
            cluster_name: self.cluster_name.deep_view(),
            cluster_id: self.cluster_id.deep_view(),
        }
    }
}

impl CiliumSpecView {
    /// Nothing set.
    pub open spec fn unset() -> CiliumSpecView {
        CiliumSpecView {
            version: None,
            registry: None,
            ipam: None,
            routing: None,
            mtu: None,
            kube_proxy_replacement: None,
            host_routing: None,
            encryption: None,
            k8s_service_host: None,
            k8s_service_port: None,
            load_balancer: None,
            envoy: None,
            cluster_name: None,
            cluster_id: None,
        }
    }
}

impl Default for CiliumSpec {
    fn default() -> (r: CiliumSpec)
        ensures
            r.deep_view() == CiliumSpecView::unset(),
    {
        CiliumSpec {
            version: None,
            registry: None,
            ipam: None,
            routing: None,
            mtu: None,
            kube_proxy_replacement: None,
            host_routing: None,
            encryption: None,
            k8s_service_host: None,
            k8s_service_port: None,
            load_balancer: None,
            envoy: None,
            cluster_name: None,
            cluster_id: None,
        }
    }
}

/// The desired cluster network.
#[derive(Clone, Debug, PartialEq)]
pub struct NetworkSpec {
    pub cni: Cni,
    /// Named install-time profile: the default of every `cilium` field.
    pub mode: Mode,
    /// Pod CIDR(s). Immutable.
    pub cluster_network: Vec<String>,
    /// Service CIDR(s). Immutable.
    pub service_network: Vec<String>,
    pub cilium: Option<CiliumSpec>,
}

/// What a [`NetworkSpec`] holds.
#[verifier::ext_equal]
pub struct NetworkSpecView {
    pub cni: Cni,
    pub mode: Mode,
    pub cluster_network: Seq<Seq<char>>,
    pub service_network: Seq<Seq<char>>,
    pub cilium: Option<CiliumSpecView>,
}

impl DeepView for NetworkSpec {
    type V = NetworkSpecView;

    open spec fn deep_view(&self) -> NetworkSpecView {
        NetworkSpecView {
            cni: self.cni.deep_view(),
            mode: self.mode.deep_view(),
            cluster_network: self.cluster_network.deep_view(),
            service_network: self.service_network.deep_view(),
            cilium: self.cilium.deep_view(),
        }
    }
}

impl NetworkSpecView {
    /// Nothing set.
    pub open spec fn unset() -> NetworkSpecView {
        NetworkSpecView {
            cni: Cni::Cilium,
            mode: Mode::Overlay,
            cluster_network: Seq::empty(),
            service_network: Seq::empty(),
            cilium: None,
        }
    }
}

impl Default for NetworkSpec {
    fn default() -> (r: NetworkSpec)
        ensures
            r.deep_view() == NetworkSpecView::unset(),
    {
        let r = NetworkSpec {
            cni: Cni::Cilium,
            mode: Mode::Overlay,
            cluster_network: Vec::new(),
            service_network: Vec::new(),
            cilium: None,
        };
        assert(r.cluster_network.deep_view() =~= Seq::empty());
        assert(r.service_network.deep_view() =~= Seq::empty());
        r
    }
}

/// Cluster-operator-style status. Written only by the operator.
///
/// The `applied*` fields say what is installed: set by a successful pass, and
/// thereafter the baseline for immutability checks.
#[derive(Debug, PartialEq)]
pub struct NetworkStatus {
    pub conditions: Vec<Condition>,
    pub applied_mode: Option<String>,
    pub applied_version: Option<String>,
    /// Datapath family (`tunnel`/`native`) of the installed mode.
    pub applied_datapath: Option<String>,
    pub applied_ipam: Option<String>,
    pub applied_cluster_network: Vec<String>,
    pub applied_service_network: Vec<String>,
    pub observed_generation: Option<i64>,
}

/// What a [`NetworkStatus`] holds.
#[verifier::ext_equal]
pub struct NetworkStatusView {
    pub conditions: Seq<ConditionView>,
    pub applied_mode: Option<Seq<char>>,
    pub applied_version: Option<Seq<char>>,
    pub applied_datapath: Option<Seq<char>>,
    pub applied_ipam: Option<Seq<char>>,
    pub applied_cluster_network: Seq<Seq<char>>,
    pub applied_service_network: Seq<Seq<char>>,
    pub observed_generation: Option<i64>,
}

impl DeepView for NetworkStatus {
    type V = NetworkStatusView;

    open spec fn deep_view(&self) -> NetworkStatusView {
        NetworkStatusView {
            conditions: self.conditions.deep_view(),
            applied_mode: self.applied_mode.deep_view(),
            applied_version: self.applied_version.deep_view(),
            applied_datapath: self.applied_datapath.deep_view(),
            applied_ipam: self.applied_ipam.deep_view(),
            applied_cluster_network: self.applied_cluster_network.deep_view(),
            applied_service_network: self.applied_service_network.deep_view(),
            observed_generation: self.observed_generation.deep_view(),
        }
    }
}

impl NetworkStatusView {
    /// Nothing set.
    pub open spec fn unset() -> NetworkStatusView {
        NetworkStatusView {
            conditions: Seq::empty(),
            applied_mode: None,
            applied_version: None,
            applied_datapath: None,
            applied_ipam: None,
            applied_cluster_network: Seq::empty(),
            applied_service_network: Seq::empty(),
            observed_generation: None,
        }
    }
}

impl Default for NetworkStatus {
    fn default() -> (r: NetworkStatus)
        ensures
            r.deep_view() == NetworkStatusView::unset(),
    {
        let r = NetworkStatus {
            conditions: Vec::new(),
            applied_mode: None,
            applied_version: None,
            applied_datapath: None,
            applied_ipam: None,
            applied_cluster_network: Vec::new(),
            applied_service_network: Vec::new(),
            observed_generation: None,
        };
        assert(r.conditions.deep_view() =~= Seq::empty());
        assert(r.applied_cluster_network.deep_view() =~= Seq::empty());
        assert(r.applied_service_network.deep_view() =~= Seq::empty());
        r
    }
}

fn clone_conditions(conditions: &Vec<Condition>) -> (r: Vec<Condition>)
    ensures
        r.deep_view() == conditions.deep_view(),
{
    let mut out: Vec<Condition> = Vec::new();
    let mut i: usize = 0;
    while i < conditions.len()
        invariant
            i <= conditions.len(),
            out@.len() == i,
            forall|j: int|
                0 <= j < i ==> (#[trigger] out@[j]).deep_view() == conditions@[j].deep_view(),
        decreases conditions.len() - i,
    {
        out.push(conditions[i].clone());
        i = i + 1;
    }
    assert(out.deep_view() =~= conditions.deep_view());
    out
}

impl Clone for NetworkStatus {
    fn clone(&self) -> (r: NetworkStatus)
        ensures
            r.deep_view() == self.deep_view(),
    {
        NetworkStatus {
            conditions: clone_conditions(&self.conditions),
            applied_mode: clone_option(&self.applied_mode),
            applied_version: clone_option(&self.applied_version),
            applied_datapath: clone_option(&self.applied_datapath),
            applied_ipam: clone_option(&self.applied_ipam),
            applied_cluster_network: clone_strings(&self.applied_cluster_network),
            applied_service_network: clone_strings(&self.applied_service_network),
            observed_generation: self.observed_generation,
        }
    }
}

/// A `Network` object as the apiserver holds it.
#[derive(Clone, Debug, PartialEq)]
pub struct Network {
    pub metadata: ObjectMeta,
    pub spec: NetworkSpec,
    pub status: Option<NetworkStatus>,
}

/// What a [`Network`] holds.
#[verifier::ext_equal]
pub struct NetworkView {
    pub metadata: ObjectMetaView,
    pub spec: NetworkSpecView,
    pub status: Option<NetworkStatusView>,
}

impl DeepView for Network {
    type V = NetworkView;

    open spec fn deep_view(&self) -> NetworkView {
        NetworkView {
            metadata: self.metadata.deep_view(),
            spec: self.spec.deep_view(),
            status: self.status.deep_view(),
        }
    }
}

// --- laws ------------------------------------------------------------------

/// Every choice goes by its name in a manifest.
pub proof fn law_the_names_of_the_choices()
    ensures
        Mode::Overlay.name() == "overlay"@,
        Mode::Native.name() == "native"@,
        Mode::Bgp.name() == "bgp"@,
        Mode::Encrypted.name() == "encrypted"@,
        Mode::BareMetal.name() == "bare-metal"@,
        IpamMode::ClusterPool.name() == "cluster-pool"@,
        IpamMode::Kubernetes.name() == "kubernetes"@,
        RoutingMode::Tunnel.name() == "tunnel"@,
        RoutingMode::Native.name() == "native"@,
        EncryptionType::Off.name() == "none"@,
        EncryptionType::Wireguard.name() == "wireguard"@,
        EncryptionType::Ipsec.name() == "ipsec"@,
{
}

/// Modes are of two datapath families: `native` and `bgp` route natively, and all
/// others tunnel.
pub proof fn law_the_datapath_families(mode: Mode)
    ensures
        mode.family() == RoutingMode::Native <==> mode == Mode::Native || mode == Mode::Bgp,
        mode.family() == RoutingMode::Tunnel <==> mode == Mode::Overlay || mode == Mode::Encrypted
            || mode == Mode::BareMetal,
{
}

/// What a fresh spec and a fresh status hold: the overlay mode and Cilium, and
/// nothing else.
pub proof fn law_what_is_left_unset()
    ensures
        NetworkSpecView::unset().mode == Mode::Overlay,
        NetworkSpecView::unset().cni == Cni::Cilium,
        NetworkSpecView::unset().cluster_network.len() == 0,
        NetworkSpecView::unset().service_network.len() == 0,
        NetworkSpecView::unset().cilium is None,
        ({
            let c = CiliumSpecView::unset();
            &&& c.version is None && c.registry is None && c.ipam is None && c.routing is None
            &&& c.mtu is None && c.kube_proxy_replacement is None && c.host_routing is None
            &&& c.encryption is None && c.k8s_service_host is None && c.k8s_service_port is None
            &&& c.load_balancer is None && c.envoy is None && c.cluster_name is None
            &&& c.cluster_id is None
        }),
        ({
            let s = NetworkStatusView::unset();
            &&& s.conditions.len() == 0 && s.observed_generation is None
            &&& s.applied_mode is None && s.applied_version is None && s.applied_datapath is None
            &&& s.applied_ipam is None && s.applied_cluster_network.len() == 0
            &&& s.applied_service_network.len() == 0
        }),
{
}

} // verus!
