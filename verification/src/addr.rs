//! Hardware and IPv4 addresses as plain octets.

use vstd::prelude::*;
use crate::error::Error;
use crate::text::{mac_from_text, mac_of_octets, mac_text, read_mac, render_mac};

verus! {

/// A 48-bit Ethernet hardware address, one field per octet in wire order.
#[derive(Clone, Copy, Debug, PartialEq, Eq, Structural)]
pub struct MacAddr(pub u8, pub u8, pub u8, pub u8, pub u8, pub u8);

/// An IPv4 address, one field per octet in wire order.
#[derive(Clone, Copy, Debug, PartialEq, Eq, Structural)]
pub struct Ipv4Addr(pub u8, pub u8, pub u8, pub u8);

impl View for MacAddr {
    type V = Seq<u8>;

    /// The six octets in the order in which they go on the wire.
    open spec fn view(&self) -> Seq<u8> {
        seq![self.0, self.1, self.2, self.3, self.4, self.5]
    }
}

impl View for Ipv4Addr {
    type V = Seq<u8>;

    /// The four octets in the order in which they go on the wire.
    open spec fn view(&self) -> Seq<u8> {
        seq![self.0, self.1, self.2, self.3]
    }
}

impl MacAddr {
    /// The all-ones address, which every station on the segment receives.
    pub open spec fn spec_broadcast() -> MacAddr {
        MacAddr(0xff, 0xff, 0xff, 0xff, 0xff, 0xff)
    }

    /// The all-zero address, which stands for "not known yet".
    pub open spec fn spec_zero() -> MacAddr {
        MacAddr(0, 0, 0, 0, 0, 0)
    }

    /// The address read from six consecutive octets of `bytes`, starting at `at`.
    pub open spec fn spec_read(bytes: Seq<u8>, at: int) -> MacAddr {
        MacAddr(
            bytes[at],
            bytes[at + 1],
            bytes[at + 2],
            bytes[at + 3],
            bytes[at + 4],
            bytes[at + 5],
        )
    }

    #[verifier::when_used_as_spec(spec_broadcast)]
    pub fn broadcast() -> (m: MacAddr)
        ensures
            m == Self::spec_broadcast(),
    {
        MacAddr(0xff, 0xff, 0xff, 0xff, 0xff, 0xff)
    }

    #[verifier::when_used_as_spec(spec_zero)]
    pub fn zero() -> (m: MacAddr)
        ensures
            m == Self::spec_zero(),
    {
        MacAddr(0, 0, 0, 0, 0, 0)
    }

    /// Reads an address from `bytes[at..at + 6]`.
    pub fn read(bytes: &[u8], at: usize) -> (m: MacAddr)
        requires
            at + 6 <= bytes@.len(),
        ensures
            m == Self::spec_read(bytes@, at as int),
    {
        MacAddr(
            bytes[at],
            bytes[at + 1],
            bytes[at + 2],
            bytes[at + 3],
            bytes[at + 4],
            bytes[at + 5],
        )
    }

    /// The address that `octets` holds; where it holds none,
    /// `Error::InvalidHardwareAddress`.
    pub open spec fn spec_from_parsed(octets: Option<(u8, u8, u8, u8, u8, u8)>) -> Result<
        MacAddr,
        Error,
    > {
        match mac_of_octets(octets) {
            Some(mac) => Ok(mac),
            None => Err(Error::InvalidHardwareAddress),
        }
    }

    /// The address in the usual notation, `mac_text`.
    pub fn to_text(&self) -> (text: String)
        ensures
            text@ == mac_text(*self),
    {
        render_mac(*self)
    }

    /// Reads an address from a text. The text is taken for an address
    /// exactly where `mac_from_text` finds six octets in it.
    pub fn from_text(text: &str) -> (r: Result<MacAddr, Error>)
        ensures
            r == Self::spec_from_parsed(mac_from_text(text@)),
    {
        match read_mac(text) {
            Some(mac) => Ok(mac),
            None => Err(Error::InvalidHardwareAddress),
        }
    }

    /// Appends the six octets to `out`.
    pub fn write(&self, out: &mut Vec<u8>)
        ensures
            final(out)@ == old(out)@ + self@,
    {
        out.push(self.0);
        out.push(self.1);
        out.push(self.2);
        out.push(self.3);
        out.push(self.4);
        out.push(self.5);
        assert(out@ =~= old(out)@ + self@);
    }
}

impl Ipv4Addr {
    /// The address read from four consecutive octets of `bytes`, starting at `at`.
    pub open spec fn spec_read(bytes: Seq<u8>, at: int) -> Ipv4Addr {
        Ipv4Addr(bytes[at], bytes[at + 1], bytes[at + 2], bytes[at + 3])
    }

    /// The limited broadcast address, 255.255.255.255.
    pub open spec fn spec_limited_broadcast() -> Ipv4Addr {
        Ipv4Addr(255, 255, 255, 255)
    }

    #[verifier::when_used_as_spec(spec_limited_broadcast)]
    pub fn limited_broadcast() -> (a: Ipv4Addr)
        ensures
            a == Self::spec_limited_broadcast(),
    {
        Ipv4Addr(255, 255, 255, 255)
    }

    /// Reads an address from `bytes[at..at + 4]`.
    pub fn read(bytes: &[u8], at: usize) -> (a: Ipv4Addr)
        requires
            at + 4 <= bytes@.len(),
        ensures
            a == Self::spec_read(bytes@, at as int),
    {
        Ipv4Addr(bytes[at], bytes[at + 1], bytes[at + 2], bytes[at + 3])
    }

    /// Appends the four octets to `out`.
    pub fn write(&self, out: &mut Vec<u8>)
        ensures
            final(out)@ == old(out)@ + self@,
    {
        out.push(self.0);
        out.push(self.1);
        out.push(self.2);
        out.push(self.3);
        assert(out@ =~= old(out)@ + self@);
    }
}

} // verus!
