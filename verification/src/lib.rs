//! Discovery and wake-up of devices on one Ethernet/IPv4 segment.
//!
//! The crate holds the decisions and the wire formats: the ARP request and
//! reply codec, the resolver that matches replies to an outstanding request,
//! the Wake-on-LAN magic packet, the liveness verdict, the interface listing
//! and the settings registry. Sockets, files and the HTTP surface belong to
//! the program that drives it.

pub mod addr;
pub mod arp;
pub mod error;
pub mod ethernet;
pub mod interface;
pub mod probe;
pub mod resolver;
pub mod settings;
pub mod text;
pub mod wire;
pub mod wol;
