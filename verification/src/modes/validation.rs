//! The rules a resolved config has to meet before anything is installed from it.
//!
//! The rules are checked in a fixed order, and the first one that is broken is
//! the one reported.

use vstd::prelude::*;

use crate::address::{
    read_addresses, read_cidrs, AddressReading, AddressReadingView, CidrReading, CidrReadingView,
};
use crate::crd::{Announce, EncryptionType, IpamMode, RoutingMode};
use crate::modes::{EffectiveConfig, EffectiveConfigView};
use crate::text::{cat, cat3, decimal_string, is_blank, is_empty, signed_decimal_string};

verus! {

use crate::address::{address_reading, cidr_reading};
use crate::text::{blank, decimal, signed_decimal};

/// Why a `Network` spec could not be resolved into a config we would install.
#[derive(Clone, Debug, PartialEq, Eq)]
pub struct ValidationError {
    pub field: String,
    pub message: String,
}

/// What a [`ValidationError`] holds.
#[verifier::ext_equal]
pub struct ValidationErrorView {
    pub field: Seq<char>,
    pub message: Seq<char>,
}

impl DeepView for ValidationError {
    type V = ValidationErrorView;

    open spec fn deep_view(&self) -> ValidationErrorView {
        ValidationErrorView { field: self.field@, message: self.message@ }
    }
}

impl ValidationErrorView {
    /// The error in one line: the field and what is wrong with it.
    pub open spec fn line(self) -> Seq<char> {
        self.field + ": "@ + self.message
    }
}

impl ValidationError {
    fn new(field: &str, message: &str) -> (r: ValidationError)
        ensures
            r.deep_view() == (ValidationErrorView { field: field@, message: message@ }),
    {
        ValidationError { field: field.to_string(), message: message.to_string() }
    }

    /// The error in one line.
    pub fn describe(&self) -> (r: String)
        ensures
            r@ == self.deep_view().line(),
    {
        cat3(self.field.as_str(), ": ", self.message.as_str())
    }
}

// --- what the rules look at ------------------------------------------------

/// The networks and addresses of a config, as they were read.
#[derive(Clone, Debug, PartialEq)]
pub struct Readings {
    pub cluster_network: Vec<CidrReading>,
    pub service_network: Vec<CidrReading>,
    pub lb_pools: Vec<CidrReading>,
    pub bgp_peers: Vec<AddressReading>,
}

/// What [`Readings`] hold.
#[verifier::ext_equal]
pub struct ReadingsView {
    pub cluster_network: Seq<CidrReadingView>,
    pub service_network: Seq<CidrReadingView>,
    pub lb_pools: Seq<CidrReadingView>,
    pub bgp_peers: Seq<AddressReadingView>,
}

impl DeepView for Readings {
    type V = ReadingsView;

    open spec fn deep_view(&self) -> ReadingsView {
        ReadingsView {
            cluster_network: self.cluster_network.deep_view(),
            service_network: self.service_network.deep_view(),
            lb_pools: self.lb_pools.deep_view(),
            bgp_peers: self.bgp_peers.deep_view(),
        }
    }
}

impl ReadingsView {
    /// One reading for each text of the config.
    pub open spec fn fits(self, cfg: EffectiveConfigView) -> bool {
        &&& self.cluster_network.len() == cfg.cluster_network.len()
        &&& self.service_network.len() == cfg.service_network.len()
        &&& self.lb_pools.len() == cfg.lb_pools.len()
        &&& self.bgp_peers.len() == cfg.bgp_peers.len()
    }
}

/// The readings of a config.
pub open spec fn readings_of(cfg: EffectiveConfigView) -> ReadingsView {
    ReadingsView {
        cluster_network: cfg.cluster_network.map_values(|t: Seq<char>| cidr_reading(t)),
        service_network: cfg.service_network.map_values(|t: Seq<char>| cidr_reading(t)),
        lb_pools: cfg.lb_pools.map_values(|t: Seq<char>| cidr_reading(t)),
        bgp_peers: cfg.bgp_peers.map_values(|p: (Seq<char>, i64)| address_reading(p.0)),
    }
}

/// Read the networks and addresses of a config.
pub fn read(cfg: &EffectiveConfig) -> (r: Readings)
    ensures
        r.deep_view() == readings_of(cfg.deep_view()),
{
    Readings {
        cluster_network: read_cidrs(&cfg.cluster_network),
        service_network: read_cidrs(&cfg.service_network),
        lb_pools: read_cidrs(&cfg.lb_pools),
        bgp_peers: read_addresses(&cfg.bgp_peers),
    }
}

// --- the rules -------------------------------------------------------------

/// What is wrong with a field.
pub open spec fn wrong(field: Seq<char>, message: Seq<char>) -> Option<ValidationErrorView> {
    Some(ValidationErrorView { field, message })
}

/// The first of two complaints.
pub open spec fn earlier(
    a: Option<ValidationErrorView>,
    b: Option<ValidationErrorView>,
) -> Option<ValidationErrorView> {
    if a is Some {
        a
    } else {
        b
    }
}

/// The complaint about the first item, counting from `from`, that has one.
pub open spec fn first_from(
    from: int,
    len: int,
    complaint: spec_fn(int) -> Option<ValidationErrorView>,
) -> Option<ValidationErrorView>
    decreases len - from,
{
    if from >= len {
        None
    } else {
        earlier(complaint(from), first_from(from + 1, len, complaint))
    }
}

/// The numbers that name an autonomous system.
pub open spec fn valid_asn(asn: i64) -> bool {
    1 <= asn <= 4_294_967_295
}

/// A text that has to be a CIDR.
pub open spec fn cidr_complaint(
    field: Seq<char>,
    reading: CidrReadingView,
) -> Option<ValidationErrorView> {
    match reading {
        CidrReadingView::Network { .. } => None,
        CidrReadingView::Unreadable { quoted, error } => wrong(
            field,
            quoted + " is not a valid CIDR: "@ + error,
        ),
    }
}

/// A list of CIDRs.
pub open spec fn cidrs_complaint(
    field: Seq<char>,
    readings: Seq<CidrReadingView>,
) -> Option<ValidationErrorView> {
    first_from(0, readings.len() as int, |i: int| cidr_complaint(field, readings[i]))
}

/// A list of CIDRs that must not be empty.
pub open spec fn some_cidrs_complaint(
    field: Seq<char>,
    none_given: Seq<char>,
    readings: Seq<CidrReadingView>,
) -> Option<ValidationErrorView> {
    if readings.len() == 0 {
        wrong(field, none_given)
    } else {
        cidrs_complaint(field, readings)
    }
}

/// The pod and service networks.
pub open spec fn networks_complaint(readings: ReadingsView) -> Option<ValidationErrorView> {
    earlier(
        some_cidrs_complaint(
            "spec.clusterNetwork"@,
            "at least one pod CIDR is required"@,
            readings.cluster_network,
        ),
        some_cidrs_complaint(
            "spec.serviceNetwork"@,
            "at least one service CIDR is required"@,
            readings.service_network,
        ),
    )
}

/// A pool that leaves no room for per-node blocks of a mask.
pub open spec fn carving_complaint(
    mask: u8,
    reading: CidrReadingView,
) -> Option<ValidationErrorView> {
    match reading {
        CidrReadingView::Network { prefix_len } if prefix_len >= mask => wrong(
            "spec.cilium.ipam.clusterPoolIPv4MaskSize"@,
            "must be longer than the clusterNetwork prefix /"@ + decimal(prefix_len as nat)
                + " to carve per-node blocks (got /"@ + decimal(mask as nat) + ")"@,
        ),
        _ => None,
    }
}

/// The node mask. cluster-pool carves per-node blocks out of the pod CIDR; a
/// mask that is not strictly longer than the pool leaves room for no node.
pub open spec fn mask_complaint(
    cfg: EffectiveConfigView,
    readings: ReadingsView,
) -> Option<ValidationErrorView> {
    let mask = cfg.cluster_pool_ipv4_mask_size;
    if cfg.ipam != IpamMode::ClusterPool {
        None
    } else if !(1 <= mask <= 32) {
        wrong("spec.cilium.ipam.clusterPoolIPv4MaskSize"@, "must be between 1 and 32"@)
    } else {
        first_from(
            0,
            readings.cluster_network.len() as int,
            |i: int| carving_complaint(mask, readings.cluster_network[i]),
        )
    }
}

/// The apiserver endpoint, the version and the MTU.
pub open spec fn endpoint_complaint(cfg: EffectiveConfigView) -> Option<ValidationErrorView> {
    if cfg.k8s_service_host.len() == 0 {
        wrong(
            "spec.cilium.k8sServiceHost"@,
            "required — the agent must reach the apiserver before Services exist"@,
        )
    } else if cfg.k8s_service_port == 0 {
        wrong("spec.cilium.k8sServicePort"@, "must be non-zero"@)
    } else if blank(cfg.version) {
        wrong("spec.cilium.version"@, "must not be empty"@)
    } else if cfg.mtu != 0 && !(576 <= cfg.mtu <= 9216) {
        wrong("spec.cilium.mtu"@, "must be 0 (auto) or between 576 and 9216"@)
    } else {
        None
    }
}

/// LB-IPAM needs pools, and announcing needs LB-IPAM.
pub open spec fn load_balancer_complaint(
    cfg: EffectiveConfigView,
    readings: ReadingsView,
) -> Option<ValidationErrorView> {
    if cfg.lb_ipam {
        some_cidrs_complaint(
            "spec.cilium.loadBalancer.pools"@,
            "at least one pool CIDR is required when LB-IPAM is enabled"@,
            readings.lb_pools,
        )
    } else if cfg.announce != Announce::Off {
        wrong(
            "spec.cilium.loadBalancer.announce"@,
            "announcing requires loadBalancer.ipam to be enabled"@,
        )
    } else {
        None
    }
}

/// A BGP neighbour.
pub open spec fn peer_complaint(
    peer: (Seq<char>, i64),
    reading: AddressReadingView,
) -> Option<ValidationErrorView> {
    match reading {
        AddressReadingView::Unreadable { quoted } => wrong(
            "spec.cilium.loadBalancer.bgp.peers"@,
            "peer address "@ + quoted + " is not an IP address"@,
        ),
        AddressReadingView::Address => if valid_asn(peer.1) {
            None
        } else {
            wrong(
                "spec.cilium.loadBalancer.bgp.peers"@,
                "peer "@ + peer.0 + " has an invalid ASN "@ + signed_decimal(peer.1 as int),
            )
        },
    }
}

/// BGP. The control plane needs native routing to advertise pod CIDRs that the
/// fabric can actually route to; behind an overlay the advertised prefixes are
/// unreachable.
pub open spec fn bgp_complaint(
    cfg: EffectiveConfigView,
    readings: ReadingsView,
) -> Option<ValidationErrorView> {
    if cfg.announce != Announce::Bgp {
        None
    } else if cfg.routing != RoutingMode::Native {
        wrong("spec.cilium.routing.mode"@, "BGP announcements require native routing"@)
    } else if !valid_asn(cfg.bgp_local_asn) {
        wrong(
            "spec.cilium.loadBalancer.bgp.localASN"@,
            "must be a valid ASN (1-4294967295)"@,
        )
    } else if cfg.bgp_peers.len() == 0 {
        wrong(
            "spec.cilium.loadBalancer.bgp.peers"@,
            "at least one peer is required for BGP announcements"@,
        )
    } else {
        first_from(
            0,
            cfg.bgp_peers.len() as int,
            |i: int| peer_complaint(cfg.bgp_peers[i], readings.bgp_peers[i]),
        )
    }
}

/// Encryption and the identity of the cluster. IPsec needs a pre-shared keyfile
/// Secret that is not managed here; refusing it beats installing an agent that
/// crash-loops on a missing key. Cilium caps the cluster id at 255.
pub open spec fn identity_complaint(cfg: EffectiveConfigView) -> Option<ValidationErrorView> {
    if cfg.encryption == EncryptionType::Ipsec {
        wrong(
            "spec.cilium.encryption.type"@,
            "ipsec is not supported yet — use wireguard"@,
        )
    } else if blank(cfg.cluster_name) {
        wrong("spec.cilium.clusterName"@, "must not be empty"@)
    } else if cfg.cluster_id > 255 {
        wrong("spec.cilium.clusterID"@, "must be between 0 and 255"@)
    } else {
        None
    }
}

/// The first rule that a config breaks.
pub open spec fn violation(
    cfg: EffectiveConfigView,
    readings: ReadingsView,
) -> Option<ValidationErrorView> {
    earlier(
        networks_complaint(readings),
        earlier(
            mask_complaint(cfg, readings),
            earlier(
                endpoint_complaint(cfg),
                earlier(
                    load_balancer_complaint(cfg, readings),
                    earlier(bgp_complaint(cfg, readings), identity_complaint(cfg)),
                ),
            ),
        ),
    )
}

/// The first rule that a config breaks, read as it stands.
pub open spec fn violation_of(cfg: EffectiveConfigView) -> Option<ValidationErrorView> {
    violation(cfg, readings_of(cfg))
}

// --- checking them ---------------------------------------------------------

fn complain(field: &str, message: &str) -> (r: Option<ValidationError>)
    ensures
        r.deep_view() == wrong(field@, message@),
{
    Some(ValidationError::new(field, message))
}

fn check_cidr(field: &str, reading: &CidrReading) -> (r: Option<ValidationError>)
    ensures
        r.deep_view() == cidr_complaint(field@, reading.deep_view()),
{
    match reading {
        CidrReading::Network { .. } => None,
        CidrReading::Unreadable { quoted, error } => {
            let message = cat3(quoted.as_str(), " is not a valid CIDR: ", error.as_str());
            complain(field, message.as_str())
        },
    }
}

fn check_some_cidrs(field: &str, none_given: &str, readings: &Vec<CidrReading>) -> (r: Option<
    ValidationError,
>)
    ensures
        r.deep_view() == some_cidrs_complaint(field@, none_given@, readings.deep_view()),
{
    if readings.len() == 0 {
        return complain(field, none_given);
    }
    let ghost all = readings.deep_view();
    let ghost rule = |i: int| cidr_complaint(field@, all[i]);
    let mut i: usize = 0;
    while i < readings.len()
        invariant
            i <= readings.len(),
            all == readings.deep_view(),
            all.len() > 0,
            rule == (|i: int| cidr_complaint(field@, all[i])),
            cidrs_complaint(field@, all) == first_from(i as int, all.len() as int, rule),
        decreases readings.len() - i,
    {
        let complaint = check_cidr(field, &readings[i]);
        assert(complaint.deep_view() == rule(i as int));
        if complaint.is_some() {
            return complaint;
        }
        i = i + 1;
    }
    None
}

fn check_networks(readings: &Readings) -> (r: Option<ValidationError>)
    ensures
        r.deep_view() == networks_complaint(readings.deep_view()),
{
    let complaint = check_some_cidrs(
        "spec.clusterNetwork",
        "at least one pod CIDR is required",
        &readings.cluster_network,
    );
    if complaint.is_some() {
        return complaint;
    }
    check_some_cidrs(
        "spec.serviceNetwork",
        "at least one service CIDR is required",
        &readings.service_network,
    )
}

fn check_carving(mask: u8, reading: &CidrReading) -> (r: Option<ValidationError>)
    ensures
        r.deep_view() == carving_complaint(mask, reading.deep_view()),
{
    match reading {
        CidrReading::Network { prefix_len } => {
            if *prefix_len >= mask {
                let prefix = cat3(
                    "must be longer than the clusterNetwork prefix /",
                    decimal_string(*prefix_len as u64).as_str(),
                    " to carve per-node blocks (got /",
                );
                let message = cat3(prefix.as_str(), decimal_string(mask as u64).as_str(), ")");
                complain("spec.cilium.ipam.clusterPoolIPv4MaskSize", message.as_str())
            } else {
                None
            }
        },
        CidrReading::Unreadable { .. } => None,
    }
}

fn check_mask(cfg: &EffectiveConfig, readings: &Readings) -> (r: Option<ValidationError>)
    ensures
        r.deep_view() == mask_complaint(cfg.deep_view(), readings.deep_view()),
{
    let mask: u8 = cfg.cluster_pool_ipv4_mask_size;
    if cfg.ipam != IpamMode::ClusterPool {
        return None;
    }
    if mask < 1 || mask > 32 {
        return complain("spec.cilium.ipam.clusterPoolIPv4MaskSize", "must be between 1 and 32");
    }
    let ghost all = readings.deep_view();
    let ghost rule = |i: int| carving_complaint(mask, all.cluster_network[i]);
    let mut i: usize = 0;
    while i < readings.cluster_network.len()
        invariant
            i <= readings.cluster_network.len(),
            all == readings.deep_view(),
            rule == (|i: int| carving_complaint(mask, all.cluster_network[i])),
            mask_complaint(cfg.deep_view(), all) == first_from(
                i as int,
                all.cluster_network.len() as int,
                rule,
            ),
        decreases readings.cluster_network.len() - i,
    {
        let complaint = check_carving(mask, &readings.cluster_network[i]);
        assert(complaint.deep_view() == rule(i as int));
        if complaint.is_some() {
            return complaint;
        }
        i = i + 1;
    }
    None
}

fn check_endpoint(cfg: &EffectiveConfig) -> (r: Option<ValidationError>)
    ensures
        r.deep_view() == endpoint_complaint(cfg.deep_view()),
{
    if is_empty(cfg.k8s_service_host.as_str()) {
        complain(
            "spec.cilium.k8sServiceHost",
            "required — the agent must reach the apiserver before Services exist",
        )
    } else if cfg.k8s_service_port == 0 {
        complain("spec.cilium.k8sServicePort", "must be non-zero")
    } else if is_blank(cfg.version.as_str()) {
        complain("spec.cilium.version", "must not be empty")
    } else if cfg.mtu != 0 && !(576 <= cfg.mtu && cfg.mtu <= 9216) {
        complain("spec.cilium.mtu", "must be 0 (auto) or between 576 and 9216")
    } else {
        None
    }
}

fn check_load_balancer(cfg: &EffectiveConfig, readings: &Readings) -> (r: Option<ValidationError>)
    ensures
        r.deep_view() == load_balancer_complaint(cfg.deep_view(), readings.deep_view()),
{
    if cfg.lb_ipam {
        check_some_cidrs(
            "spec.cilium.loadBalancer.pools",
            "at least one pool CIDR is required when LB-IPAM is enabled",
            &readings.lb_pools,
        )
    } else if cfg.announce != Announce::Off {
        complain(
            "spec.cilium.loadBalancer.announce",
            "announcing requires loadBalancer.ipam to be enabled",
        )
    } else {
        None
    }
}

fn check_asn(asn: i64) -> (r: bool)
    ensures
        r == valid_asn(asn),
{
    1 <= asn && asn <= 4_294_967_295
}

fn check_peer(peer: &(String, i64), reading: &AddressReading) -> (r: Option<ValidationError>)
    ensures
        r.deep_view() == peer_complaint(peer.deep_view(), reading.deep_view()),
{
    match reading {
        AddressReading::Unreadable { quoted } => {
            let message = cat3("peer address ", quoted.as_str(), " is not an IP address");
            complain("spec.cilium.loadBalancer.bgp.peers", message.as_str())
        },
        AddressReading::Address => {
            if check_asn(peer.1) {
                None
            } else {
                let who = cat3("peer ", peer.0.as_str(), " has an invalid ASN ");
                let message = cat(who.as_str(), signed_decimal_string(peer.1).as_str());
                complain("spec.cilium.loadBalancer.bgp.peers", message.as_str())
            }
        },
    }
}

fn check_bgp(cfg: &EffectiveConfig, readings: &Readings) -> (r: Option<ValidationError>)
    requires
        readings.deep_view().fits(cfg.deep_view()),
    ensures
        r.deep_view() == bgp_complaint(cfg.deep_view(), readings.deep_view()),
{
    if !cfg.bgp_enabled() {
        return None;
    }
    if cfg.routing != RoutingMode::Native {
        return complain("spec.cilium.routing.mode", "BGP announcements require native routing");
    }
    if !check_asn(cfg.bgp_local_asn) {
        return complain(
            "spec.cilium.loadBalancer.bgp.localASN",
            "must be a valid ASN (1-4294967295)",
        );
    }
    if cfg.bgp_peers.len() == 0 {
        return complain(
            "spec.cilium.loadBalancer.bgp.peers",
            "at least one peer is required for BGP announcements",
        );
    }
    let ghost c = cfg.deep_view();
    let ghost all = readings.deep_view();
    let ghost rule = |i: int| peer_complaint(c.bgp_peers[i], all.bgp_peers[i]);
    let mut i: usize = 0;
    while i < cfg.bgp_peers.len()
        invariant
            i <= cfg.bgp_peers.len(),
            c == cfg.deep_view(),
            all == readings.deep_view(),
            all.fits(c),
            rule == (|i: int| peer_complaint(c.bgp_peers[i], all.bgp_peers[i])),
            bgp_complaint(c, all) == first_from(i as int, c.bgp_peers.len() as int, rule),
        decreases cfg.bgp_peers.len() - i,
    {
        let complaint = check_peer(&cfg.bgp_peers[i], &readings.bgp_peers[i]);
        assert(complaint.deep_view() == rule(i as int));
        if complaint.is_some() {
            return complaint;
        }
        i = i + 1;
    }
    None
}

fn check_identity(cfg: &EffectiveConfig) -> (r: Option<ValidationError>)
    ensures
        r.deep_view() == identity_complaint(cfg.deep_view()),
{
    if cfg.encryption == EncryptionType::Ipsec {
        complain("spec.cilium.encryption.type", "ipsec is not supported yet — use wireguard")
    } else if is_blank(cfg.cluster_name.as_str()) {
        complain("spec.cilium.clusterName", "must not be empty")
    } else if cfg.cluster_id > 255 {
        complain("spec.cilium.clusterID", "must be between 0 and 255")
    } else {
        None
    }
}

/// Check a config whose networks and addresses have been read.
pub fn validate_with(cfg: &EffectiveConfig, readings: &Readings) -> (r: Result<
    (),
    ValidationError,
>)
    requires
        readings.deep_view().fits(cfg.deep_view()),
    ensures
        r is Ok <==> violation(cfg.deep_view(), readings.deep_view()) is None,
        r matches Err(e) ==> violation(cfg.deep_view(), readings.deep_view()) == Some(
            e.deep_view(),
        ),
{
    if let Some(e) = check_networks(readings) {
        return Err(e);
    }
    if let Some(e) = check_mask(cfg, readings) {
        return Err(e);
    }
    if let Some(e) = check_endpoint(cfg) {
        return Err(e);
    }
    if let Some(e) = check_load_balancer(cfg, readings) {
        return Err(e);
    }
    if let Some(e) = check_bgp(cfg, readings) {
        return Err(e);
    }
    if let Some(e) = check_identity(cfg) {
        return Err(e);
    }
    Ok(())
}

/// Check a config.
pub fn validate(cfg: &EffectiveConfig) -> (r: Result<(), ValidationError>)
    ensures
        r is Ok <==> violation_of(cfg.deep_view()) is None,
        r matches Err(e) ==> violation_of(cfg.deep_view()) == Some(e.deep_view()),
{
    let readings = read(cfg);
    validate_with(cfg, &readings)
}

} // verus!
