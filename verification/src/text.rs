//! Addresses as text: what the notations are, and the calls that render
//! and read them.

use vstd::prelude::*;
use core::str::FromStr;
use crate::addr::{Ipv4Addr, MacAddr};

verus! {

/// The sixteen hexadecimal digits, in lower case. The first ten are the
/// decimal digits.
pub open spec fn hex_digits() -> Seq<char> {
    seq!['0', '1', '2', '3', '4', '5', '6', '7', '8', '9', 'a', 'b', 'c', 'd', 'e', 'f']
}

/// An octet as two hexadecimal digits in lower case.
pub open spec fn hex_octet(b: u8) -> Seq<char> {
    seq![hex_digits()[b as int / 16], hex_digits()[b as int % 16]]
}

/// A hardware address in the usual notation: six octets as two hexadecimal
/// digits each, in lower case, with a colon between them.
pub open spec fn mac_text(mac: MacAddr) -> Seq<char> {
    hex_octet(mac.0) + seq![':'] + hex_octet(mac.1) + seq![':'] + hex_octet(mac.2) + seq![':']
        + hex_octet(mac.3) + seq![':'] + hex_octet(mac.4) + seq![':'] + hex_octet(mac.5)
}

/// A number in decimal, without leading zeros.
pub open spec fn decimal(n: nat) -> Seq<char>
    decreases n,
{
    if n < 10 {
        seq![hex_digits()[n as int]]
    } else {
        decimal(n / 10) + seq![hex_digits()[n as int % 10]]
    }
}

/// An IPv4 address in dotted decimal notation.
pub open spec fn ipv4_text(addr: Ipv4Addr) -> Seq<char> {
    decimal(addr.0 as nat) + seq!['.'] + decimal(addr.1 as nat) + seq!['.'] + decimal(
        addr.2 as nat,
    ) + seq!['.'] + decimal(addr.3 as nat)
}

/// An IPv4 address with the length of its network prefix: the address in
/// dotted decimal notation, a slash, the length in decimal.
pub open spec fn ipv4_network_text(addr: Ipv4Addr, prefix: u8) -> Seq<char> {
    ipv4_text(addr) + seq!['/'] + decimal(prefix as nat)
}

/// The octets that pnet reads from a text as a hardware address, or `None`
/// where it takes the text for none. It splits the text at the colons,
/// wants six groups, none of them empty, and reads each group as std's
/// `u8::from_str_radix` reads a number in base 16: upper and lower case,
/// and one digit for two, are taken alike.
pub uninterp spec fn mac_from_text(text: Seq<char>) -> Option<(u8, u8, u8, u8, u8, u8)>;

/// The address made of six octets, where there are six.
pub open spec fn mac_of_octets(octets: Option<(u8, u8, u8, u8, u8, u8)>) -> Option<MacAddr> {
    match octets {
        Some(o) => Some(MacAddr(o.0, o.1, o.2, o.3, o.4, o.5)),
        None => None,
    }
}

/// Calls the `Display` impl of pnet's `MacAddr`, by way of `to_string`.
/// Trusted: that impl writes each octet with `{:02x}` and puts colons
/// between them, which is `mac_text`.
#[verifier::external_body]
pub(crate) fn render_mac(mac: MacAddr) -> (text: String)
    ensures
        text@ == mac_text(mac),
{
    pnet::util::MacAddr::new(mac.0, mac.1, mac.2, mac.3, mac.4, mac.5).to_string()
}

/// Calls the `FromStr` impl of pnet's `MacAddr`. Trusted: the result
/// depends on the text alone; it is given the name `mac_from_text`, and a
/// refusal of any kind becomes `None`.
#[verifier::external_body]
pub(crate) fn read_mac(text: &str) -> (mac: Option<MacAddr>)
    ensures
        mac == mac_of_octets(mac_from_text(text@)),
{
    match pnet::util::MacAddr::from_str(text) {
        Ok(m) => Some(MacAddr(m.0, m.1, m.2, m.3, m.4, m.5)),
        Err(_) => None,
    }
}

/// Calls the `Display` impl of ipnetwork's `Ipv4Network`, by way of
/// `to_string`, on the network made by `Ipv4Network::new`. Trusted: `new`
/// takes every prefix up to 32, and the impl writes the address as std
/// displays it, a slash and the prefix, which is `ipv4_network_text`.
#[verifier::external_body]
pub(crate) fn render_ipv4_network(addr: Ipv4Addr, prefix: u8) -> (text: String)
    requires
        prefix <= 32,
    ensures
        text@ == ipv4_network_text(addr, prefix),
{
    match pnet::ipnetwork::Ipv4Network::new([addr.0, addr.1, addr.2, addr.3].into(), prefix) {
        Ok(net) => net.to_string(),
        Err(_) => String::new(),
    }
}

} // verus!
