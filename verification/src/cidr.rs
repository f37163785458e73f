//! Network prefixes in CIDR notation.

use crate::text::decimal;
use vstd::prelude::*;

verus! {

/// A network prefix: an address and the number of leading bits that name the network.
///
/// The address is kept as written: host bits below the prefix are not cleared, so
/// `10.1.1.7/24` and `10.1.1.0/24` are different values.
#[allow(inconsistent_fields)]
#[derive(Clone, Copy, Debug, PartialEq, Eq, Structural, Hash)]
pub enum Cidr {
    V4 { addr: u32, prefix_len: u8 },
    V6 { addr: u128, prefix_len: u8 },
}

/// Why a pair of strings is not an allow-list entry.
#[derive(Clone, Copy, Debug, PartialEq, Eq, Structural)]
pub enum ParseError {
    /// The text is not an address, a slash and a prefix length.
    MalformedCidr,
    /// The description has more characters than the remote API stores.
    DescriptionTooLong,
}

/// What `ipnet` reads out of a text in CIDR notation, `None` where it rejects the text.
pub uninterp spec fn ipnet_parse(text: Seq<char>) -> Option<Cidr>;

/// The text that `ipnet` prints for a prefix.
pub uninterp spec fn ipnet_text(net: Cidr) -> Seq<char>;

/// `<ipnet::IpNet as FromStr>::from_str`: the parsed prefix, or `None` for a text that
/// the crate's parser rejects. The parser builds every IPv4 prefix with a length of at
/// most 32 and every IPv6 prefix with one of at most 128.
#[verifier::external_body]
fn ipnet_from_text(text: &str) -> (r: Option<Cidr>)
    ensures
        r == ipnet_parse(text@),
        r matches Some(net) ==> net.wf(),
{
    match text.parse::<ipnet::IpNet>() {
        Ok(ipnet::IpNet::V4(n)) => Some(Cidr::V4 { addr: n.addr().into(), prefix_len: n.prefix_len() }),
        Ok(ipnet::IpNet::V6(n)) => Some(Cidr::V6 { addr: n.addr().into(), prefix_len: n.prefix_len() }),
        Err(_) => None,
    }
}

/// The text of an IPv4 prefix: the four bytes of the address in decimal, most
/// significant first, with dots between them, then a slash and the prefix length.
pub open spec fn v4_text(addr: u32, prefix_len: u8) -> Seq<char> {
    decimal((addr / 0x100_0000) as nat) + seq!['.'] + decimal((addr / 0x1_0000 % 0x100) as nat)
        + seq!['.'] + decimal((addr / 0x100 % 0x100) as nat) + seq!['.'] + decimal(
        (addr % 0x100) as nat,
    ) + seq!['/'] + decimal(prefix_len as nat)
}

/// The text of a prefix in CIDR notation: dotted decimal for IPv4, and for IPv6 what
/// `ipnet` prints.
pub open spec fn cidr_text(net: Cidr) -> Seq<char> {
    match net {
        Cidr::V4 { addr, prefix_len } => v4_text(addr, prefix_len),
        Cidr::V6 { .. } => ipnet_text(net),
    }
}

/// `<ipnet::IpNet as Display>::fmt`, through `to_string`: the address, a slash and the
/// prefix length. For IPv4 the address is printed in dotted decimal. Building the
/// `ipnet` value fails for a prefix length beyond the family's maximum, which `requires`
/// leaves out.
#[verifier::external_body]
fn ipnet_to_text(net: &Cidr) -> (text: String)
    requires
        net.wf(),
    ensures
        text@ == ipnet_text(*net),
        *net matches Cidr::V4 { addr, prefix_len } ==> text@ == v4_text(addr, prefix_len),
{
    match *net {
        Cidr::V4 { addr, prefix_len } => ipnet::IpNet::V4(ipnet::Ipv4Net::new(addr.into(), prefix_len).unwrap()).to_string(),
        Cidr::V6 { addr, prefix_len } => ipnet::IpNet::V6(ipnet::Ipv6Net::new(addr.into(), prefix_len).unwrap()).to_string(),
    }
}

impl Cidr {
    /// The prefix length is within the address family's width.
    pub open spec fn wf(self) -> bool {
        match self {
            Cidr::V4 { prefix_len, .. } => prefix_len <= 32,
            Cidr::V6 { prefix_len, .. } => prefix_len <= 128,
        }
    }

    /// The prefix that holds exactly one IPv4 address.
    pub open spec fn spec_host_v4(addr: u32) -> Cidr {
        Cidr::V4 { addr, prefix_len: 32 }
    }

    /// Whether the prefix length is within the address family's width.
    pub fn is_valid(&self) -> (ok: bool)
        ensures
            ok == self.wf(),
    {
        match *self {
            Cidr::V4 { prefix_len, .. } => prefix_len <= 32,
            Cidr::V6 { prefix_len, .. } => prefix_len <= 128,
        }
    }

    /// The `/32` of one IPv4 address, given as its 32 bits.
    pub fn host_v4(addr: u32) -> (net: Cidr)
        ensures
            net == Cidr::spec_host_v4(addr),
            net.wf(),
    {
        Cidr::V4 { addr, prefix_len: 32 }
    }

    /// Reads a prefix in CIDR notation.
    pub fn parse(text: &str) -> (r: Result<Cidr, ParseError>)
        ensures
            cidr_of_parse(ipnet_parse(text@)) == r,
            r matches Ok(net) ==> net.wf(),
    {
        cidr_from_parsed(ipnet_from_text(text))
    }

    /// The prefix in CIDR notation.
    pub fn to_text(&self) -> (text: String)
        requires
            self.wf(),
        ensures
            text@ == cidr_text(*self),
    {
        ipnet_to_text(self)
    }
}

/// The outcome of reading a prefix, given what the parser made of the text.
pub open spec fn cidr_of_parse(parsed: Option<Cidr>) -> Result<Cidr, ParseError> {
    match parsed {
        Some(net) => Ok(net),
        None => Err(ParseError::MalformedCidr),
    }
}

/// Turns the parser's answer into the outcome of `Cidr::parse`: a rejected text is
/// `MalformedCidr`, a parsed prefix is returned as it is.
pub fn cidr_from_parsed(parsed: Option<Cidr>) -> (r: Result<Cidr, ParseError>)
    ensures
        r == cidr_of_parse(parsed),
{
    match parsed {
        Some(net) => Ok(net),
        None => Err(ParseError::MalformedCidr),
    }
}

} // verus!
