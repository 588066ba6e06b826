//! The Ethernet frame: a 14-octet header (destination, source, ethertype)
//! followed by the payload.

use vstd::prelude::*;
use vstd::slice::slice_subrange;
use crate::addr::MacAddr;
use crate::wire::{be16, lemma_be16_round_trip, load_be16, read_be16, write_be16};

verus! {

/// Length of the Ethernet header.
pub const ETHERNET_HEADER_LEN: usize = 14;

/// Ethertype of IPv4.
pub const ETHERTYPE_IPV4: u16 = 0x0800;

/// Ethertype of ARP.
pub const ETHERTYPE_ARP: u16 = 0x0806;

/// The header of an Ethernet frame.
#[derive(Clone, Copy, Debug, PartialEq, Eq, Structural)]
pub struct EthernetHeader {
    pub destination: MacAddr,
    pub source: MacAddr,
    pub ethertype: u16,
}

impl EthernetHeader {
    /// The header as it goes on the wire.
    pub open spec fn wire(&self) -> Seq<u8> {
        self.destination@ + self.source@ + be16(self.ethertype)
    }

    /// What a frame holds as its header: nothing where the frame is shorter
    /// than a header.
    pub open spec fn spec_parse(frame: Seq<u8>) -> Option<EthernetHeader> {
        if frame.len() < ETHERNET_HEADER_LEN {
            None
        } else {
            Some(
                EthernetHeader {
                    destination: MacAddr::spec_read(frame, 0),
                    source: MacAddr::spec_read(frame, 6),
                    ethertype: read_be16(frame, 12),
                },
            )
        }
    }

    /// Appends the header's 14 octets to `out`.
    pub fn write(&self, out: &mut Vec<u8>)
        ensures
            final(out)@ == old(out)@ + self.wire(),
    {
        self.destination.write(out);
        self.source.write(out);
        write_be16(self.ethertype, out);
        assert(out@ =~= old(out)@ + self.wire());
    }

    /// Reads the header of `frame`.
    pub fn parse(frame: &[u8]) -> (h: Option<EthernetHeader>)
        ensures
            h == Self::spec_parse(frame@),
    {
        if frame.len() < ETHERNET_HEADER_LEN {
            return None;
        }
        Some(
            EthernetHeader {
                destination: MacAddr::read(frame, 0),
                source: MacAddr::read(frame, 6),
                ethertype: load_be16(frame, 12),
            },
        )
    }
}

/// The frame made of `header` and `payload`.
pub open spec fn spec_frame(header: EthernetHeader, payload: Seq<u8>) -> Seq<u8> {
    header.wire() + payload
}

/// What a frame carries after its header: nothing where the frame is shorter
/// than a header.
pub open spec fn spec_payload(frame: Seq<u8>) -> Option<Seq<u8>> {
    if frame.len() < ETHERNET_HEADER_LEN {
        None
    } else {
        Some(frame.skip(ETHERNET_HEADER_LEN as int))
    }
}

/// The octets of `frame` after its header.
pub fn payload(frame: &[u8]) -> (p: Option<&[u8]>)
    ensures
        p is Some <==> spec_payload(frame@) is Some,
        p is Some ==> p->Some_0@ == spec_payload(frame@)->Some_0,
{
    if frame.len() < ETHERNET_HEADER_LEN {
        return None;
    }
    let rest = slice_subrange(frame, ETHERNET_HEADER_LEN, frame.len());
    assert(rest@ =~= frame@.skip(ETHERNET_HEADER_LEN as int));
    Some(rest)
}

/// A header takes 14 octets, and a frame is its header followed by its
/// payload: taking a frame apart gives back both.
pub proof fn lemma_frame_round_trip(header: EthernetHeader, payload: Seq<u8>)
    ensures
        header.wire().len() == ETHERNET_HEADER_LEN,
        EthernetHeader::spec_parse(spec_frame(header, payload)) == Some(header),
        spec_payload(spec_frame(header, payload)) == Some(payload),
{
    let f = spec_frame(header, payload);
    lemma_be16_round_trip(header.ethertype);
    assert(header.wire().len() == 14);
    assert(MacAddr::spec_read(f, 0) == header.destination);
    assert(MacAddr::spec_read(f, 6) == header.source);
    assert(f[12] == be16(header.ethertype)[0] && f[13] == be16(header.ethertype)[1]);
    assert(f.skip(14) =~= payload);
}

} // verus!
