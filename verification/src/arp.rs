//! The ARP packet for IPv4 over Ethernet.
//!
//! A fixed layout of 28 octets in network byte order: hardware type (2),
//! protocol type (2), hardware address length (1), protocol address length
//! (1), operation (2), sender hardware address (6), sender protocol address
//! (4), target hardware address (6), target protocol address (4).

use vstd::prelude::*;
use crate::addr::{Ipv4Addr, MacAddr};
use crate::ethernet::ETHERTYPE_IPV4;
use crate::wire::{be16, lemma_be16_round_trip, load_be16, read_be16, write_be16};

verus! {

/// Length of an ARP packet for IPv4 over Ethernet.
pub const ARP_PACKET_LEN: usize = 28;

/// ARP hardware type of Ethernet.
pub const HARDWARE_ETHERNET: u16 = 1;

/// ARP operation: request.
pub const OPERATION_REQUEST: u16 = 1;

/// ARP operation: reply.
pub const OPERATION_REPLY: u16 = 2;

/// An ARP packet for IPv4 over Ethernet.
#[derive(Clone, Copy, Debug, PartialEq, Eq, Structural)]
pub struct ArpPacket {
    pub hardware_type: u16,
    pub protocol_type: u16,
    pub hw_addr_len: u8,
    pub proto_addr_len: u8,
    pub operation: u16,
    pub sender_hw_addr: MacAddr,
    pub sender_proto_addr: Ipv4Addr,
    pub target_hw_addr: MacAddr,
    pub target_proto_addr: Ipv4Addr,
}

impl ArpPacket {
    /// The packet as it goes on the wire.
    pub open spec fn wire(&self) -> Seq<u8> {
        be16(self.hardware_type) + be16(self.protocol_type) + seq![
            self.hw_addr_len,
            self.proto_addr_len,
        ] + be16(self.operation) + self.sender_hw_addr@ + self.sender_proto_addr@
            + self.target_hw_addr@ + self.target_proto_addr@
    }

    /// What a buffer holds, read as an ARP packet: nothing where it is
    /// shorter than a packet, else the fields of its first 28 octets. No
    /// field is checked against the values that Ethernet and IPv4 call for.
    pub open spec fn spec_parse(bytes: Seq<u8>) -> Option<ArpPacket> {
        if bytes.len() < ARP_PACKET_LEN {
            None
        } else {
            Some(
                ArpPacket {
                    hardware_type: read_be16(bytes, 0),
                    protocol_type: read_be16(bytes, 2),
                    hw_addr_len: bytes[4],
                    proto_addr_len: bytes[5],
                    operation: read_be16(bytes, 6),
                    sender_hw_addr: MacAddr::spec_read(bytes, 8),
                    sender_proto_addr: Ipv4Addr::spec_read(bytes, 14),
                    target_hw_addr: MacAddr::spec_read(bytes, 18),
                    target_proto_addr: Ipv4Addr::spec_read(bytes, 24),
                },
            )
        }
    }

    /// The request by which `sender_hw_addr`, bound to `sender_proto_addr`,
    /// asks who holds `target_proto_addr`.
    pub open spec fn spec_request(
        sender_hw_addr: MacAddr,
        sender_proto_addr: Ipv4Addr,
        target_proto_addr: Ipv4Addr,
    ) -> ArpPacket {
        ArpPacket {
            hardware_type: HARDWARE_ETHERNET,
            protocol_type: ETHERTYPE_IPV4,
            hw_addr_len: 6,
            proto_addr_len: 4,
            operation: OPERATION_REQUEST,
            sender_hw_addr,
            sender_proto_addr,
            target_hw_addr: MacAddr::spec_zero(),
            target_proto_addr,
        }
    }

    /// Builds the request of `spec_request`.
    #[verifier::when_used_as_spec(spec_request)]
    pub fn request(
        sender_hw_addr: MacAddr,
        sender_proto_addr: Ipv4Addr,
        target_proto_addr: Ipv4Addr,
    ) -> (p: ArpPacket)
        ensures
            p == Self::spec_request(sender_hw_addr, sender_proto_addr, target_proto_addr),
    {
        ArpPacket {
            hardware_type: HARDWARE_ETHERNET,
            protocol_type: ETHERTYPE_IPV4,
            hw_addr_len: 6,
            proto_addr_len: 4,
            operation: OPERATION_REQUEST,
            sender_hw_addr,
            sender_proto_addr,
            target_hw_addr: MacAddr::zero(),
            target_proto_addr,
        }
    }

    /// Appends the packet's 28 octets to `out`.
    pub fn write(&self, out: &mut Vec<u8>)
        ensures
            final(out)@ == old(out)@ + self.wire(),
    {
        write_be16(self.hardware_type, out);
        write_be16(self.protocol_type, out);
        out.push(self.hw_addr_len);
        out.push(self.proto_addr_len);
        write_be16(self.operation, out);
        self.sender_hw_addr.write(out);
        self.sender_proto_addr.write(out);
        self.target_hw_addr.write(out);
        self.target_proto_addr.write(out);
        assert(out@ =~= old(out)@ + self.wire());
    }

    /// The packet's 28 octets.
    pub fn to_bytes(&self) -> (bytes: Vec<u8>)
        ensures
            bytes@ == self.wire(),
    {
        let mut bytes: Vec<u8> = Vec::new();
        self.write(&mut bytes);
        assert(bytes@ =~= self.wire());
        bytes
    }

    /// Reads a packet from the start of `bytes`; octets past the 28th are
    /// left alone.
    pub fn parse(bytes: &[u8]) -> (p: Option<ArpPacket>)
        ensures
            p == Self::spec_parse(bytes@),
    {
        if bytes.len() < ARP_PACKET_LEN {
            return None;
        }
        Some(
            ArpPacket {
                hardware_type: load_be16(bytes, 0),
                protocol_type: load_be16(bytes, 2),
                hw_addr_len: bytes[4],
                proto_addr_len: bytes[5],
                operation: load_be16(bytes, 6),
                sender_hw_addr: MacAddr::read(bytes, 8),
                sender_proto_addr: Ipv4Addr::read(bytes, 14),
                target_hw_addr: MacAddr::read(bytes, 18),
                target_proto_addr: Ipv4Addr::read(bytes, 24),
            },
        )
    }
}

/// A packet takes 28 octets on the wire.
pub proof fn lemma_wire_len(p: ArpPacket)
    ensures
        p.wire().len() == ARP_PACKET_LEN,
{
}

/// Serialising a packet and parsing the octets yields the same packet, field
/// for field.
pub proof fn lemma_parse_wire(p: ArpPacket)
    ensures
        ArpPacket::spec_parse(p.wire()) == Some(p),
{
    let w = p.wire();
    lemma_be16_round_trip(p.hardware_type);
    lemma_be16_round_trip(p.protocol_type);
    lemma_be16_round_trip(p.operation);
    assert(w.len() == 28);
    assert(w[0] == be16(p.hardware_type)[0] && w[1] == be16(p.hardware_type)[1]);
    assert(w[2] == be16(p.protocol_type)[0] && w[3] == be16(p.protocol_type)[1]);
    assert(w[6] == be16(p.operation)[0] && w[7] == be16(p.operation)[1]);
    assert(MacAddr::spec_read(w, 8) == p.sender_hw_addr);
    assert(Ipv4Addr::spec_read(w, 14) == p.sender_proto_addr);
    assert(MacAddr::spec_read(w, 18) == p.target_hw_addr);
    assert(Ipv4Addr::spec_read(w, 24) == p.target_proto_addr);
}

/// Parsing a 28-octet buffer and serialising the packet yields the same
/// octets: no two buffers of that length stand for one packet.
pub proof fn lemma_wire_parse(bytes: Seq<u8>)
    requires
        bytes.len() == ARP_PACKET_LEN,
    ensures
        ArpPacket::spec_parse(bytes) is Some,
        ArpPacket::spec_parse(bytes)->Some_0.wire() == bytes,
{
    let p = ArpPacket::spec_parse(bytes)->Some_0;
    let w = p.wire();
    assert(w.len() == 28);
    assert forall|i: int| 0 <= i < 28 implies w[i] == bytes[i] by {
    }
    assert(w =~= bytes);
}

/// A request round-trips: parsing its 28 octets gives back the sender's
/// addresses, the zero target hardware address and the target's IPv4
/// address, with the constants of Ethernet and IPv4.
pub proof fn lemma_request_round_trip(
    sender_hw_addr: MacAddr,
    sender_proto_addr: Ipv4Addr,
    target_proto_addr: Ipv4Addr,
)
    ensures
        ArpPacket::spec_request(sender_hw_addr, sender_proto_addr, target_proto_addr).wire().len()
            == ARP_PACKET_LEN,
        ArpPacket::spec_parse(
            ArpPacket::spec_request(sender_hw_addr, sender_proto_addr, target_proto_addr).wire(),
        ) == Some(ArpPacket::spec_request(sender_hw_addr, sender_proto_addr, target_proto_addr)),
{
    lemma_parse_wire(
        ArpPacket::spec_request(sender_hw_addr, sender_proto_addr, target_proto_addr),
    );
}

} // verus!
