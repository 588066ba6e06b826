//! Wake-on-LAN: the magic packet and the datagram that carries it.

use vstd::prelude::*;
use crate::addr::{Ipv4Addr, MacAddr};
use crate::error::Error;
use crate::text::mac_from_text;

verus! {

/// Length of the run of `0xFF` octets that opens a magic packet.
pub const SYNC_LEN: usize = 6;

/// How often a magic packet repeats the target's hardware address.
pub const REPETITIONS: usize = 16;

/// Length of a magic packet.
pub const MAGIC_PACKET_LEN: usize = 102;

/// The UDP port to which magic packets conventionally go.
pub const DEFAULT_PORT: u16 = 9;

/// `block` repeated `n` times.
pub open spec fn repeated(block: Seq<u8>, n: nat) -> Seq<u8>
    decreases n,
{
    if n == 0 {
        Seq::empty()
    } else {
        repeated(block, (n - 1) as nat) + block
    }
}

/// The magic packet for `mac`: six octets of `0xFF`, then the address
/// sixteen times.
pub open spec fn spec_magic_packet(mac: MacAddr) -> Seq<u8> {
    seq![0xffu8, 0xffu8, 0xffu8, 0xffu8, 0xffu8, 0xffu8] + repeated(mac@, REPETITIONS as nat)
}

/// Builds the magic packet of `spec_magic_packet`.
pub fn magic_packet(mac: MacAddr) -> (packet: Vec<u8>)
    ensures
        packet@ == spec_magic_packet(mac),
{
    let mut packet: Vec<u8> = Vec::new();
    let mut i: usize = 0;
    while i < SYNC_LEN
        invariant
            i <= SYNC_LEN,
            packet@.len() == i,
            forall|k: int| 0 <= k < i ==> packet@[k] == 0xff,
        decreases SYNC_LEN - i,
    {
        packet.push(0xff);
        i += 1;
    }
    let ghost sync = packet@;
    assert(sync =~= seq![0xffu8, 0xffu8, 0xffu8, 0xffu8, 0xffu8, 0xffu8]);
    let mut n: usize = 0;
    assert(packet@ =~= sync + repeated(mac@, 0));
    while n < REPETITIONS
        invariant
            n <= REPETITIONS,
            packet@ == sync + repeated(mac@, n as nat),
        decreases REPETITIONS - n,
    {
        let ghost before = packet@;
        mac.write(&mut packet);
        n += 1;
        assert(packet@ =~= sync + repeated(mac@, n as nat)) by {
            assert(repeated(mac@, n as nat) == repeated(mac@, (n - 1) as nat) + mac@);
        }
    }
    packet
}

/// `n` repetitions of a block take `n` times its length, and the octet at
/// a position is the block's octet at that position modulo its length.
pub proof fn lemma_repeated(block: Seq<u8>, n: nat)
    requires
        block.len() > 0,
    ensures
        repeated(block, n).len() == n * block.len(),
        forall|i: int|
            0 <= i < n * block.len() ==> #[trigger] repeated(block, n)[i] == block[i % (
            block.len() as int)],
    decreases n,
{
    let len = block.len() as int;
    if n > 0 {
        lemma_repeated(block, (n - 1) as nat);
        assert((n - 1) * len + len == n * len) by (nonlinear_arith);
        assert(repeated(block, n) == repeated(block, (n - 1) as nat) + block);
        assert forall|i: int| 0 <= i < n * len implies #[trigger] repeated(block, n)[i] == block[i
            % len] by {
            if i >= (n - 1) * len {
                let j = i - (n - 1) * len;
                assert(repeated(block, n)[i] == block[j]);
                assert(i % len == j) by (nonlinear_arith)
                    requires
                        i == (n - 1) * len + j,
                        0 <= j < len,
                        n >= 1,
                ;
            } else {
                assert(repeated(block, n)[i] == repeated(block, (n - 1) as nat)[i]);
            }
        }
    } else {
        assert(n * len == 0) by (nonlinear_arith)
            requires
                n == 0,
        ;
    }
}

/// A magic packet is 102 octets long; its first six are `0xFF`; and the
/// octets after them are those of the hardware address, over and over:
/// each of the sixteen blocks of six that follow is the address.
pub proof fn lemma_magic_packet_layout(mac: MacAddr)
    ensures
        spec_magic_packet(mac).len() == MAGIC_PACKET_LEN,
        forall|i: int| 0 <= i < 6 ==> #[trigger] spec_magic_packet(mac)[i] == 0xff,
        forall|i: int| 6 <= i < 102 ==> #[trigger] spec_magic_packet(mac)[i] == mac@[(i - 6) % 6],
        forall|k: int|
            0 <= k < 16 ==> #[trigger] spec_magic_packet(mac).subrange(6 * k + 6, 6 * k + 12)
                == mac@,
{
    lemma_repeated(mac@, 16);
    let p = spec_magic_packet(mac);
    assert(p.len() == 102);
    assert forall|i: int| 6 <= i < 102 implies #[trigger] p[i] == mac@[(i - 6) % 6] by {
        assert(p[i] == repeated(mac@, 16)[i - 6]);
    }
    assert forall|k: int| 0 <= k < 16 implies #[trigger] p.subrange(6 * k + 6, 6 * k + 12)
        == mac@ by {
        let block = p.subrange(6 * k + 6, 6 * k + 12);
        assert forall|j: int| 0 <= j < 6 implies block[j] == mac@[j] by {
            assert(block[j] == p[6 * k + 6 + j]);
            assert((6 * k + j) % 6 == j);
        }
        assert(block =~= mac@);
    }
}

/// What a caller asks for: the device to wake, and where to send the
/// packet if not to the default.
#[derive(Clone, Copy, Debug, PartialEq, Eq, Structural)]
pub struct WakeData {
    pub mac: MacAddr,
    pub broadcast: Option<Ipv4Addr>,
    pub port: Option<u16>,
}

/// One datagram to hand to the local stack.
#[derive(Clone, Debug)]
pub struct Datagram {
    pub addr: Ipv4Addr,
    pub port: u16,
    pub payload: Vec<u8>,
}

/// Where the packet for `data` goes: the address given, else the limited
/// broadcast address.
pub open spec fn spec_destination(data: WakeData) -> Ipv4Addr {
    match data.broadcast {
        Some(addr) => addr,
        None => Ipv4Addr::spec_limited_broadcast(),
    }
}

/// The port to which the packet for `data` goes: the one given, else 9.
pub open spec fn spec_port(data: WakeData) -> u16 {
    match data.port {
        Some(port) => port,
        None => DEFAULT_PORT,
    }
}

/// The datagram that wakes the device of `data`: its magic packet, to the
/// destination and port of `data`.
pub fn wake(data: &WakeData) -> (datagram: Datagram)
    ensures
        datagram.addr == spec_destination(*data),
        datagram.port == spec_port(*data),
        datagram.payload@ == spec_magic_packet(data.mac),
{
    let addr = match data.broadcast {
        Some(addr) => addr,
        None => Ipv4Addr::limited_broadcast(),
    };
    let port = match data.port {
        Some(port) => port,
        None => DEFAULT_PORT,
    };
    Datagram { addr, port, payload: magic_packet(data.mac) }
}

/// The request to wake the device whose hardware address `parsed` holds;
/// where it holds none, `Error::InvalidHardwareAddress`.
pub open spec fn spec_wake_data(
    parsed: Option<(u8, u8, u8, u8, u8, u8)>,
    broadcast: Option<Ipv4Addr>,
    port: Option<u16>,
) -> Result<WakeData, Error> {
    match MacAddr::spec_from_parsed(parsed) {
        Ok(mac) => Ok(WakeData { mac, broadcast, port }),
        Err(e) => Err(e),
    }
}

/// Makes a request out of what was read from the text of a hardware
/// address: the request for that address, or the failure to read one.
pub fn wake_data(
    parsed: Result<MacAddr, Error>,
    broadcast: Option<Ipv4Addr>,
    port: Option<u16>,
) -> (r: Result<WakeData, Error>)
    ensures
        r == match parsed {
            Ok(mac) => Ok::<WakeData, Error>(WakeData { mac, broadcast, port }),
            Err(e) => Err::<WakeData, Error>(e),
        },
{
    match parsed {
        Ok(mac) => Ok(WakeData { mac, broadcast, port }),
        Err(e) => Err(e),
    }
}

/// Makes a request out of the text of a hardware address. The text is
/// taken for an address exactly where `mac_from_text` finds six octets in
/// it.
pub fn wake_data_from_text(mac: &str, broadcast: Option<Ipv4Addr>, port: Option<u16>) -> (r: Result<
    WakeData,
    Error,
>)
    ensures
        r == spec_wake_data(mac_from_text(mac@), broadcast, port),
{
    wake_data(MacAddr::from_text(mac), broadcast, port)
}

/// What the send of a datagram came to: the stack took it, or
/// `Error::Transmission`.
pub fn acknowledge(accepted: bool) -> (r: Result<(), Error>)
    ensures
        r == if accepted {
            Ok::<(), Error>(())
        } else {
            Err::<(), Error>(Error::Transmission)
        },
{
    if accepted {
        Ok(())
    } else {
        Err(Error::Transmission)
    }
}

} // verus!
