//! Reading networks and addresses out of text.
//!
//! The grammar of a CIDR is `ipnet`'s and the grammar of an address is the
//! standard library's; this module only says what was read.

use vstd::prelude::*;

use crate::text::quote;

verus! {

use crate::text::debug_quoted;

// --- outside calls ---------------------------------------------------------

/// The prefix length of the network that `ipnet` reads in a text; `None` where
/// it reads no network.
pub uninterp spec fn ip_net_prefix_len(text: Seq<char>) -> Option<u8>;

/// Whether the standard library reads a text as an IP address.
pub uninterp spec fn reads_as_ip_address(text: Seq<char>) -> bool;

/// The error with which `ipnet` refuses a text.
#[verifier::external_type_specification]
#[verifier::external_body]
pub struct ExAddrParseError(ipnet::AddrParseError);

/// Calls `<ipnet::IpNet as FromStr>::from_str` and keeps the prefix length of
/// the network. Claimed: the outcome depends on the text alone, and is what
/// [`ip_net_prefix_len`] names.
#[verifier::external_body]
fn parse_ip_net(text: &str) -> (r: Result<u8, ipnet::AddrParseError>)
    ensures
        (match r {
            Ok(prefix_len) => Some(prefix_len),
            Err(_) => None,
        }) == ip_net_prefix_len(text@),
{
    text.parse::<ipnet::IpNet>().map(|net| net.prefix_len())
}

/// Calls `Display` of `ipnet::AddrParseError`. Claimed: it writes the same words
/// for every refused text.
#[verifier::external_body]
fn parse_error_text(error: &ipnet::AddrParseError) -> (r: String)
    ensures
        r@ == "invalid IP address syntax"@,
{
    error.to_string()
}

/// Calls the standard library's `IpAddr::from_str`, whose result
/// `ipnet::IpNet::new` takes as it is; a prefix of length zero fits every
/// address. Claimed: the outcome depends on the text alone, and is what
/// [`reads_as_ip_address`] names.
#[verifier::external_body]
fn parse_ip_address(text: &str) -> (r: bool)
    ensures
        r == reads_as_ip_address(text@),
{
    match text.parse() {
        Ok(ip) => ipnet::IpNet::new(ip, 0).is_ok(),
        Err(_) => false,
    }
}

// --- readings --------------------------------------------------------------

/// What a text says as a CIDR.
#[derive(Clone, Debug, PartialEq)]
pub enum CidrReading {
    /// A network with this prefix length.
    Network { prefix_len: u8 },
    /// No network: the text in quotes, and why.
    Unreadable { quoted: String, error: String },
}

/// What a [`CidrReading`] holds.
#[verifier::ext_equal]
pub enum CidrReadingView {
    Network { prefix_len: u8 },
    Unreadable { quoted: Seq<char>, error: Seq<char> },
}

impl DeepView for CidrReading {
    type V = CidrReadingView;

    open spec fn deep_view(&self) -> CidrReadingView {
        match self {
            CidrReading::Network { prefix_len } => CidrReadingView::Network {
                prefix_len: *prefix_len,
            },
            CidrReading::Unreadable { quoted, error } => CidrReadingView::Unreadable {
                quoted: quoted@,
                error: error@,
            },
        }
    }
}

/// What a text says as an IP address.
#[derive(Clone, Debug, PartialEq)]
pub enum AddressReading {
    Address,
    /// No address: the text in quotes.
    Unreadable { quoted: String },
}

/// What an [`AddressReading`] holds.
#[verifier::ext_equal]
pub enum AddressReadingView {
    Address,
    Unreadable { quoted: Seq<char> },
}

impl DeepView for AddressReading {
    type V = AddressReadingView;

    open spec fn deep_view(&self) -> AddressReadingView {
        match self {
            AddressReading::Address => AddressReadingView::Address,
            AddressReading::Unreadable { quoted } => AddressReadingView::Unreadable {
                quoted: quoted@,
            },
        }
    }
}

/// The reading of a CIDR.
pub open spec fn cidr_reading(text: Seq<char>) -> CidrReadingView {
    match ip_net_prefix_len(text) {
        Some(prefix_len) => CidrReadingView::Network { prefix_len },
        None => CidrReadingView::Unreadable {
            quoted: debug_quoted(text),
            error: "invalid IP address syntax"@,
        },
    }
}

/// The reading of an address.
pub open spec fn address_reading(text: Seq<char>) -> AddressReadingView {
    if reads_as_ip_address(text) {
        AddressReadingView::Address
    } else {
        AddressReadingView::Unreadable { quoted: debug_quoted(text) }
    }
}

/// Read a CIDR.
pub fn read_cidr(text: &str) -> (r: CidrReading)
    ensures
        r.deep_view() == cidr_reading(text@),
{
    match parse_ip_net(text) {
        Ok(prefix_len) => CidrReading::Network { prefix_len },
        Err(error) => CidrReading::Unreadable {
            quoted: quote(text),
            error: parse_error_text(&error),
        },
    }
}

/// Read an address.
pub fn read_address(text: &str) -> (r: AddressReading)
    ensures
        r.deep_view() == address_reading(text@),
{
    if parse_ip_address(text) {
        AddressReading::Address
    } else {
        AddressReading::Unreadable { quoted: quote(text) }
    }
}

/// Read every CIDR of a list.
pub fn read_cidrs(texts: &Vec<String>) -> (r: Vec<CidrReading>)
    ensures
        r.deep_view() == texts.deep_view().map_values(|t: Seq<char>| cidr_reading(t)),
{
    let mut out: Vec<CidrReading> = Vec::new();
    let mut i: usize = 0;
    while i < texts.len()
        invariant
            i <= texts.len(),
            out@.len() == i,
            forall|j: int|
                0 <= j < i ==> (#[trigger] out@[j]).deep_view() == cidr_reading(texts@[j]@),
        decreases texts.len() - i,
    {
        out.push(read_cidr(texts[i].as_str()));
        i = i + 1;
    }
    assert(out.deep_view() =~= texts.deep_view().map_values(|t: Seq<char>| cidr_reading(t)));
    out
}

/// Read the address of every peer.
pub fn read_addresses(peers: &Vec<(String, i64)>) -> (r: Vec<AddressReading>)
    ensures
        r.deep_view() == peers.deep_view().map_values(|p: (Seq<char>, i64)| address_reading(p.0)),
{
    let mut out: Vec<AddressReading> = Vec::new();
    let mut i: usize = 0;
    while i < peers.len()
        invariant
            i <= peers.len(),
            out@.len() == i,
            forall|j: int|
                0 <= j < i ==> (#[trigger] out@[j]).deep_view() == address_reading(peers@[j].0@),
        decreases peers.len() - i,
    {
        out.push(read_address(peers[i].0.as_str()));
        i = i + 1;
    }
    assert(out.deep_view() =~= peers.deep_view().map_values(
        |p: (Seq<char>, i64)| address_reading(p.0),
    ));
    out
}

/// A CIDR reads as the network that it is, by the length of its prefix; any other
/// text is quoted, with why it is none.
pub proof fn law_what_a_cidr_reads_as(text: Seq<char>)
    ensures
        ip_net_prefix_len(text) matches Some(n) ==> cidr_reading(text) == (
        CidrReadingView::Network { prefix_len: n }),
        ip_net_prefix_len(text) is None ==> cidr_reading(text) == (CidrReadingView::Unreadable {
            quoted: debug_quoted(text),
            error: "invalid IP address syntax"@,
        }),
{
}

/// An address reads as one, and any other text is quoted.
pub proof fn law_what_an_address_reads_as(text: Seq<char>)
    ensures
        reads_as_ip_address(text) <==> address_reading(text) is Address,
        !reads_as_ip_address(text) ==> address_reading(text) == (AddressReadingView::Unreadable {
            quoted: debug_quoted(text),
        }),
{
}

} // verus!
