use lanwake::addr::{Ipv4Addr, MacAddr};
use lanwake::arp::{ArpPacket, ARP_PACKET_LEN, HARDWARE_ETHERNET, OPERATION_REPLY, OPERATION_REQUEST};
use lanwake::ethernet::{payload, EthernetHeader, ETHERNET_HEADER_LEN, ETHERTYPE_ARP, ETHERTYPE_IPV4};
use lanwake::resolver::ArpExchange;
use lanwake::wire::{load_be16, write_be16};

use pnet::packet::arp::{ArpHardwareTypes, ArpOperations, MutableArpPacket};
use pnet::packet::ethernet::{EtherTypes, MutableEthernetPacket};
use pnet::packet::{MutablePacket, Packet};

fn sample_request() -> ArpPacket {
    ArpPacket::request(
        MacAddr(0x02, 0x42, 0xac, 0x11, 0x00, 0x02),
        Ipv4Addr(192, 168, 1, 5),
        Ipv4Addr(192, 168, 1, 10),
    )
}

#[test]
fn be16_writes_most_significant_octet_first() {
    let mut out = vec![0xaa];
    write_be16(0x0806, &mut out);
    assert_eq!(out, vec![0xaa, 0x08, 0x06]);
    assert_eq!(load_be16(&out, 1), 0x0806);
    let mut edge = Vec::new();
    write_be16(0xffff, &mut edge);
    write_be16(0, &mut edge);
    assert_eq!(edge, vec![0xff, 0xff, 0, 0]);
    assert_eq!(load_be16(&edge, 0), 0xffff);
    assert_eq!(load_be16(&edge, 1), 0xff00);
}

#[test]
fn request_has_the_constants_of_ethernet_and_ipv4() {
    let p = sample_request();
    assert_eq!(p.hardware_type, HARDWARE_ETHERNET);
    assert_eq!(p.hardware_type, 1);
    assert_eq!(p.protocol_type, ETHERTYPE_IPV4);
    assert_eq!(p.protocol_type, 0x0800);
    assert_eq!(p.hw_addr_len, 6);
    assert_eq!(p.proto_addr_len, 4);
    assert_eq!(p.operation, OPERATION_REQUEST);
    assert_eq!(p.operation, 1);
    assert_eq!(OPERATION_REPLY, 2);
    assert_eq!(p.sender_hw_addr, MacAddr(0x02, 0x42, 0xac, 0x11, 0x00, 0x02));
    assert_eq!(p.sender_proto_addr, Ipv4Addr(192, 168, 1, 5));
    assert_eq!(p.target_hw_addr, MacAddr(0, 0, 0, 0, 0, 0));
    assert_eq!(p.target_proto_addr, Ipv4Addr(192, 168, 1, 10));
}

#[test]
fn request_serialises_to_the_exact_28_octets() {
    let bytes = sample_request().to_bytes();
    assert_eq!(bytes.len(), ARP_PACKET_LEN);
    assert_eq!(
        bytes,
        vec![
            0x00, 0x01, 0x08, 0x00, 0x06, 0x04, 0x00, 0x01, 0x02, 0x42, 0xac, 0x11, 0x00, 0x02,
            192, 168, 1, 5, 0, 0, 0, 0, 0, 0, 192, 168, 1, 10,
        ]
    );
}

#[test]
fn arp_packet_round_trips() {
    let p = sample_request();
    let bytes = p.to_bytes();
    assert_eq!(ArpPacket::parse(&bytes), Some(p));
    let reply = ArpPacket {
        hardware_type: 1,
        protocol_type: 0x0800,
        hw_addr_len: 6,
        proto_addr_len: 4,
        operation: OPERATION_REPLY,
        sender_hw_addr: MacAddr(0xaa, 0xbb, 0xcc, 0xdd, 0xee, 0xff),
        sender_proto_addr: Ipv4Addr(10, 0, 0, 7),
        target_hw_addr: MacAddr(1, 2, 3, 4, 5, 6),
        target_proto_addr: Ipv4Addr(10, 0, 0, 1),
    };
    assert_eq!(ArpPacket::parse(&reply.to_bytes()), Some(reply));
}

#[test]
fn arp_buffer_round_trips_byte_for_byte() {
    let buffer: Vec<u8> = (0u8..28).map(|i| i.wrapping_mul(37).wrapping_add(11)).collect();
    let p = ArpPacket::parse(&buffer).unwrap();
    assert_eq!(p.to_bytes(), buffer);
    assert_eq!(p.hardware_type, 0x0b30);
    assert_eq!(p.hw_addr_len, buffer[4]);
    assert_eq!(p.sender_hw_addr.0, buffer[8]);
    assert_eq!(p.target_proto_addr.3, buffer[27]);
}

#[test]
fn arp_parse_refuses_short_buffers_and_ignores_a_trailer() {
    let mut bytes = sample_request().to_bytes();
    assert_eq!(ArpPacket::parse(&bytes[..27]), None);
    assert_eq!(ArpPacket::parse(&[]), None);
    bytes.extend_from_slice(&[9, 9, 9]);
    assert_eq!(ArpPacket::parse(&bytes), Some(sample_request()));
}

#[test]
fn arp_write_appends() {
    let mut out = vec![7, 7];
    sample_request().write(&mut out);
    assert_eq!(out.len(), 30);
    assert_eq!(&out[..2], &[7, 7]);
    assert_eq!(&out[2..], &sample_request().to_bytes()[..]);
}

#[test]
fn arp_bytes_are_those_that_pnet_writes() {
    let mut buffer = [0u8; 28];
    {
        let mut packet = MutableArpPacket::new(&mut buffer).unwrap();
        packet.set_hardware_type(ArpHardwareTypes::Ethernet);
        packet.set_protocol_type(EtherTypes::Ipv4);
        packet.set_hw_addr_len(6);
        packet.set_proto_addr_len(4);
        packet.set_operation(ArpOperations::Request);
        packet.set_sender_hw_addr(pnet::util::MacAddr::new(0x02, 0x42, 0xac, 0x11, 0x00, 0x02));
        packet.set_sender_proto_addr([192, 168, 1, 5].into());
        packet.set_target_hw_addr(pnet::util::MacAddr::zero());
        packet.set_target_proto_addr([192, 168, 1, 10].into());
    }
    assert_eq!(sample_request().to_bytes(), buffer.to_vec());
}

#[test]
fn arp_fields_are_those_that_pnet_reads() {
    let buffer: Vec<u8> = (0u8..40).map(|i| i.wrapping_mul(91).wrapping_add(3)).collect();
    let theirs = pnet::packet::arp::ArpPacket::new(&buffer).unwrap();
    let ours = ArpPacket::parse(&buffer).unwrap();
    assert_eq!(ours.hardware_type, theirs.get_hardware_type().0);
    assert_eq!(ours.protocol_type, theirs.get_protocol_type().0);
    assert_eq!(ours.hw_addr_len, theirs.get_hw_addr_len());
    assert_eq!(ours.proto_addr_len, theirs.get_proto_addr_len());
    assert_eq!(ours.operation, theirs.get_operation().0);
    let m = theirs.get_sender_hw_addr();
    assert_eq!(ours.sender_hw_addr, MacAddr(m.0, m.1, m.2, m.3, m.4, m.5));
    let o = theirs.get_sender_proto_addr().octets();
    assert_eq!(ours.sender_proto_addr, Ipv4Addr(o[0], o[1], o[2], o[3]));
    let m = theirs.get_target_hw_addr();
    assert_eq!(ours.target_hw_addr, MacAddr(m.0, m.1, m.2, m.3, m.4, m.5));
    let o = theirs.get_target_proto_addr().octets();
    assert_eq!(ours.target_proto_addr, Ipv4Addr(o[0], o[1], o[2], o[3]));
    assert!(pnet::packet::arp::ArpPacket::new(&buffer[..27]).is_none());
}

#[test]
fn ethernet_header_round_trips() {
    let header = EthernetHeader {
        destination: MacAddr(0xde, 0xf0, 0x12, 0x34, 0x45, 0x67),
        source: MacAddr(0x12, 0x34, 0x56, 0x78, 0x9a, 0xbc),
        ethertype: 0x86dd,
    };
    let mut out = Vec::new();
    header.write(&mut out);
    assert_eq!(out.len(), ETHERNET_HEADER_LEN);
    assert_eq!(
        out,
        vec![0xde, 0xf0, 0x12, 0x34, 0x45, 0x67, 0x12, 0x34, 0x56, 0x78, 0x9a, 0xbc, 0x86, 0xdd]
    );
    assert_eq!(EthernetHeader::parse(&out), Some(header));
    assert_eq!(EthernetHeader::parse(&out[..13]), None);
    out.push(0x55);
    assert_eq!(EthernetHeader::parse(&out), Some(header));
}

#[test]
fn payload_is_what_follows_the_header() {
    let frame: Vec<u8> = (0u8..20).collect();
    assert_eq!(payload(&frame), Some(&frame[14..]));
    assert_eq!(payload(&frame[..14]), Some(&frame[..0]));
    assert_eq!(payload(&frame[..13]), None);
    assert_eq!(payload(&[]), None);
}

#[test]
fn request_frame_is_the_exact_42_octets() {
    let exchange = ArpExchange {
        source_ip: Ipv4Addr(192, 168, 1, 5),
        source_mac: MacAddr(0x02, 0x42, 0xac, 0x11, 0x00, 0x02),
        target_ip: Ipv4Addr(192, 168, 1, 10),
    };
    let frame = exchange.request_frame();
    assert_eq!(frame.len(), 42);
    assert_eq!(
        frame,
        vec![
            0xff, 0xff, 0xff, 0xff, 0xff, 0xff, 0x02, 0x42, 0xac, 0x11, 0x00, 0x02, 0x08, 0x06,
            0x00, 0x01, 0x08, 0x00, 0x06, 0x04, 0x00, 0x01, 0x02, 0x42, 0xac, 0x11, 0x00, 0x02,
            192, 168, 1, 5, 0, 0, 0, 0, 0, 0, 192, 168, 1, 10,
        ]
    );
    let header = EthernetHeader::parse(&frame).unwrap();
    assert_eq!(header.destination, MacAddr::broadcast());
    assert_eq!(header.source, exchange.source_mac);
    assert_eq!(header.ethertype, ETHERTYPE_ARP);
    assert_eq!(ArpPacket::parse(payload(&frame).unwrap()), Some(sample_request()));
}

#[test]
fn request_frame_is_the_one_that_pnet_builds() {
    let mac = pnet::util::MacAddr::new(0x02, 0x42, 0xac, 0x11, 0x00, 0x02);
    let mut ethernet_buffer = [0u8; 42];
    let mut ethernet_packet = MutableEthernetPacket::new(&mut ethernet_buffer).unwrap();
    ethernet_packet.set_destination(pnet::util::MacAddr::broadcast());
    ethernet_packet.set_source(mac);
    ethernet_packet.set_ethertype(EtherTypes::Arp);
    let mut arp_buffer = [0u8; 28];
    let mut arp_packet = MutableArpPacket::new(&mut arp_buffer).unwrap();
    arp_packet.set_hardware_type(ArpHardwareTypes::Ethernet);
    arp_packet.set_protocol_type(EtherTypes::Ipv4);
    arp_packet.set_hw_addr_len(6);
    arp_packet.set_proto_addr_len(4);
    arp_packet.set_operation(ArpOperations::Request);
    arp_packet.set_sender_hw_addr(mac);
    arp_packet.set_sender_proto_addr([10, 1, 2, 3].into());
    arp_packet.set_target_hw_addr(pnet::util::MacAddr::zero());
    arp_packet.set_target_proto_addr([10, 1, 2, 200].into());
    ethernet_packet.set_payload(arp_packet.packet_mut());
    let theirs = ethernet_packet.packet().to_vec();

    let exchange = ArpExchange {
        source_ip: Ipv4Addr(10, 1, 2, 3),
        source_mac: MacAddr(0x02, 0x42, 0xac, 0x11, 0x00, 0x02),
        target_ip: Ipv4Addr(10, 1, 2, 200),
    };
    assert_eq!(exchange.request_frame(), theirs);
}

#[test]
fn addresses_read_and_write_in_wire_order() {
    let bytes = [9u8, 1, 2, 3, 4, 5, 6, 7];
    assert_eq!(MacAddr::read(&bytes, 1), MacAddr(1, 2, 3, 4, 5, 6));
    assert_eq!(MacAddr::read(&bytes, 2), MacAddr(2, 3, 4, 5, 6, 7));
    assert_eq!(Ipv4Addr::read(&bytes, 4), Ipv4Addr(4, 5, 6, 7));
    let mut out = vec![0];
    MacAddr(1, 2, 3, 4, 5, 6).write(&mut out);
    Ipv4Addr(10, 20, 30, 40).write(&mut out);
    assert_eq!(out, vec![0, 1, 2, 3, 4, 5, 6, 10, 20, 30, 40]);
    assert_eq!(MacAddr::zero(), MacAddr(0, 0, 0, 0, 0, 0));
    assert_eq!(MacAddr::broadcast(), MacAddr(255, 255, 255, 255, 255, 255));
    assert_eq!(Ipv4Addr::limited_broadcast(), Ipv4Addr(255, 255, 255, 255));
}
