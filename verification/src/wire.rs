//! Reading headers off the wire.
//!
//! The byte layouts are pnet's: each `read_*` function hands the bytes to
//! the packet type of that crate and copies out what its accessors return.
//! The specification functions of this module say which bytes those are.
//!
//! A header is decoded only where the buffer holds all that it announces.
//! Each `decode_*` function refuses a buffer that is too short for the
//! header, and one in which a length field of the header claims more bytes
//! than the buffer has: the header length and the total length of IPv4,
//! the payload length of IPv6, the data offset of TCP, the length of UDP.

use vstd::prelude::*;
use crate::packets::{EthernetHeader, Ipv4Header, Ipv6Header, TcpHeader, UdpHeader};

verus! {

/// Length of an Ethernet header.
pub const ETHERNET_HEADER_LEN: usize = 14;

/// Length of an IPv4 header without options.
pub const IPV4_HEADER_LEN: usize = 20;

/// Length of the fixed IPv6 header.
pub const IPV6_HEADER_LEN: usize = 40;

/// Length of a TCP header without options.
pub const TCP_HEADER_LEN: usize = 20;

/// Length of a UDP header.
pub const UDP_HEADER_LEN: usize = 8;

/// The number that two bytes give when the first is the more significant.
pub open spec fn be16(high: u8, low: u8) -> int {
    256 * (high as int) + (low as int)
}

/// The EtherType field of an Ethernet frame.
pub open spec fn ethernet_ethertype(frame: Seq<u8>) -> int
    recommends
        frame.len() >= ETHERNET_HEADER_LEN,
{
    be16(frame[12], frame[13])
}

/// What an Ethernet frame carries: all bytes after its header.
pub open spec fn ethernet_payload(frame: Seq<u8>) -> Seq<u8>
    recommends
        frame.len() >= ETHERNET_HEADER_LEN,
{
    frame.skip(ETHERNET_HEADER_LEN as int)
}

/// Where the payload of an IPv4 packet begins: after the header of twenty
/// bytes and after the options, whose length follows from the header
/// length field, the low half of the first byte, counted in words of four
/// bytes.
pub open spec fn ipv4_payload_start(packet: Seq<u8>) -> int
    recommends
        packet.len() >= IPV4_HEADER_LEN,
{
    let header = 4 * (packet[0] % 16);
    if header > IPV4_HEADER_LEN {
        header
    } else {
        IPV4_HEADER_LEN as int
    }
}

/// What an IPv4 packet carries: from the end of the options, as many bytes
/// as the total length field leaves after the header length, or as many as
/// are there, if those are fewer.
pub open spec fn ipv4_payload(packet: Seq<u8>) -> Seq<u8>
    recommends
        packet.len() >= IPV4_HEADER_LEN,
{
    let start = ipv4_payload_start(packet);
    let header = 4 * (packet[0] % 16);
    let total = be16(packet[2], packet[3]);
    let declared = if total > header {
        total - header
    } else {
        0
    };
    if packet.len() <= start {
        Seq::empty()
    } else if start + declared < packet.len() {
        packet.subrange(start, start + declared)
    } else {
        packet.skip(start)
    }
}

/// What an IPv6 packet carries: after the fixed header, as many bytes as
/// the payload length field says, or as many as are there, if those are
/// fewer.
pub open spec fn ipv6_payload(packet: Seq<u8>) -> Seq<u8>
    recommends
        packet.len() >= IPV6_HEADER_LEN,
{
    let declared = be16(packet[4], packet[5]);
    if IPV6_HEADER_LEN + declared < packet.len() {
        packet.subrange(IPV6_HEADER_LEN as int, IPV6_HEADER_LEN + declared)
    } else {
        packet.skip(IPV6_HEADER_LEN as int)
    }
}

/// Where the payload of a TCP segment begins: after the header of twenty
/// bytes and after the options, whose length follows from the data offset,
/// the high half of byte 12, counted in words of four bytes.
pub open spec fn tcp_payload_start(segment: Seq<u8>) -> int
    recommends
        segment.len() >= TCP_HEADER_LEN,
{
    let offset = 4 * (segment[12] / 16);
    if offset > TCP_HEADER_LEN {
        offset
    } else {
        TCP_HEADER_LEN as int
    }
}

/// What a TCP segment carries: all bytes after its options.
pub open spec fn tcp_payload(segment: Seq<u8>) -> Seq<u8>
    recommends
        segment.len() >= TCP_HEADER_LEN,
{
    if segment.len() <= tcp_payload_start(segment) {
        Seq::empty()
    } else {
        segment.skip(tcp_payload_start(segment))
    }
}

/// What a UDP datagram carries: all bytes after its header.
pub open spec fn udp_payload(datagram: Seq<u8>) -> Seq<u8>
    recommends
        datagram.len() >= UDP_HEADER_LEN,
{
    datagram.skip(UDP_HEADER_LEN as int)
}

/// Whether `packet` holds an IPv4 header and all that the header
/// announces: twenty bytes at least, and no fewer than the header length
/// field and the total length field claim.
pub open spec fn ipv4_fits(packet: Seq<u8>) -> bool {
    &&& packet.len() >= IPV4_HEADER_LEN
    &&& ipv4_payload_start(packet) <= packet.len()
    &&& be16(packet[2], packet[3]) <= packet.len()
}

/// Whether `packet` holds an IPv6 header and all that the header
/// announces: forty bytes, and after them no fewer than the payload length
/// field claims.
pub open spec fn ipv6_fits(packet: Seq<u8>) -> bool {
    &&& packet.len() >= IPV6_HEADER_LEN
    &&& IPV6_HEADER_LEN + be16(packet[4], packet[5]) <= packet.len()
}

/// Whether `segment` holds a TCP header and all that the header
/// announces: twenty bytes at least, and no fewer than the data offset
/// claims.
pub open spec fn tcp_fits(segment: Seq<u8>) -> bool {
    &&& segment.len() >= TCP_HEADER_LEN
    &&& tcp_payload_start(segment) <= segment.len()
}

/// Whether `datagram` holds a UDP header and all that the header
/// announces: eight bytes at least, and no fewer than the length field
/// claims.
pub open spec fn udp_fits(datagram: Seq<u8>) -> bool {
    &&& datagram.len() >= UDP_HEADER_LEN
    &&& be16(datagram[4], datagram[5]) <= datagram.len()
}

/// The text that the standard library's `Display` gives for the IPv6
/// address of the sixteen `octets`.
pub uninterp spec fn ipv6_text(octets: Seq<u8>) -> Seq<char>;

/// Trusted: pnet's `EthernetPacket::new`, and `get_ethertype` and
/// `Packet::payload` on the packet that it returns.
///
/// `new` refuses a buffer of fewer than fourteen bytes and takes any
/// other. The EtherType is read from bytes 12 and 13, the first being the
/// more significant; the payload is everything from byte 14 on.
#[verifier::external_body]
pub(crate) fn read_ethernet(frame: &[u8]) -> (header: Option<EthernetHeader>)
    ensures
        header is Some <==> frame@.len() >= ETHERNET_HEADER_LEN,
        header matches Some(h) ==> {
            &&& h.ethertype == ethernet_ethertype(frame@)
            &&& h.payload@ == ethernet_payload(frame@)
        },
{
    match pnet::packet::ethernet::EthernetPacket::new(frame) {
        Some(p) => Some(
            EthernetHeader {
                ethertype: p.get_ethertype().0,
                payload: pnet::packet::Packet::payload(&p).to_vec(),
            },
        ),
        None => None,
    }
}

/// Trusted: pnet's `Ipv4Packet::new`, and `get_source`, `get_destination`,
/// `get_next_level_protocol` and `Packet::payload` on the packet that it
/// returns.
///
/// `new` refuses a buffer of fewer than twenty bytes and takes any other.
/// The protocol is byte 9, the source address bytes 12 to 15, the
/// destination address bytes 16 to 19. The payload is what
/// [`ipv4_payload`] says; it is empty where the header length field points
/// past the end of the buffer.
#[verifier::external_body]
fn read_ipv4(packet: &[u8]) -> (header: Option<Ipv4Header>)
    ensures
        header is Some <==> packet@.len() >= IPV4_HEADER_LEN,
        header matches Some(h) ==> {
            &&& h.source@ == packet@.subrange(12, 16)
            &&& h.destination@ == packet@.subrange(16, 20)
            &&& h.next_level_protocol == packet@[9]
            &&& h.payload@ == ipv4_payload(packet@)
        },
{
    match pnet::packet::ipv4::Ipv4Packet::new(packet) {
        Some(p) => Some(
            Ipv4Header {
                source: p.get_source().octets(),
                destination: p.get_destination().octets(),
                next_level_protocol: p.get_next_level_protocol().0,
                payload: pnet::packet::Packet::payload(&p).to_vec(),
            },
        ),
        None => None,
    }
}

/// Trusted: pnet's `Ipv6Packet::new`, and `get_source`, `get_destination`,
/// `get_next_header` and `Packet::payload` on the packet that it returns.
///
/// `new` refuses a buffer of fewer than forty bytes and takes any other.
/// The next header is byte 6, the source address bytes 8 to 23, the
/// destination address bytes 24 to 39. The payload is what
/// [`ipv6_payload`] says.
#[verifier::external_body]
fn read_ipv6(packet: &[u8]) -> (header: Option<Ipv6Header>)
    ensures
        header is Some <==> packet@.len() >= IPV6_HEADER_LEN,
        header matches Some(h) ==> {
            &&& h.source@ == packet@.subrange(8, 24)
            &&& h.destination@ == packet@.subrange(24, 40)
            &&& h.next_header == packet@[6]
            &&& h.payload@ == ipv6_payload(packet@)
        },
{
    match pnet::packet::ipv6::Ipv6Packet::new(packet) {
        Some(p) => Some(
            Ipv6Header {
                source: p.get_source().octets(),
                destination: p.get_destination().octets(),
                next_header: p.get_next_header().0,
                payload: pnet::packet::Packet::payload(&p).to_vec(),
            },
        ),
        None => None,
    }
}

/// Trusted: pnet's `TcpPacket::new`, and `get_source`, `get_destination`
/// and `Packet::payload` on the packet that it returns.
///
/// `new` refuses a buffer of fewer than twenty bytes and takes any other.
/// The source port is read from bytes 0 and 1, the destination port from
/// bytes 2 and 3, the first of each pair being the more significant. The
/// payload is what [`tcp_payload`] says; it is empty where the data offset
/// points past the end of the buffer.
#[verifier::external_body]
fn read_tcp(segment: &[u8]) -> (header: Option<TcpHeader>)
    ensures
        header is Some <==> segment@.len() >= TCP_HEADER_LEN,
        header matches Some(h) ==> {
            &&& h.source == be16(segment@[0], segment@[1])
            &&& h.destination == be16(segment@[2], segment@[3])
            &&& h.payload@ == tcp_payload(segment@)
        },
{
    match pnet::packet::tcp::TcpPacket::new(segment) {
        Some(p) => Some(
            TcpHeader {
                source: p.get_source(),
                destination: p.get_destination(),
                payload: pnet::packet::Packet::payload(&p).to_vec(),
            },
        ),
        None => None,
    }
}

/// Trusted: pnet's `UdpPacket::new`, and `get_source`, `get_destination`
/// and `Packet::payload` on the packet that it returns.
///
/// `new` refuses a buffer of fewer than eight bytes and takes any other.
/// The source port is read from bytes 0 and 1, the destination port from
/// bytes 2 and 3, the first of each pair being the more significant. The
/// payload is everything from byte 8 on, whatever the length field says.
#[verifier::external_body]
fn read_udp(datagram: &[u8]) -> (header: Option<UdpHeader>)
    ensures
        header is Some <==> datagram@.len() >= UDP_HEADER_LEN,
        header matches Some(h) ==> {
            &&& h.source == be16(datagram@[0], datagram@[1])
            &&& h.destination == be16(datagram@[2], datagram@[3])
            &&& h.payload@ == udp_payload(datagram@)
        },
{
    match pnet::packet::udp::UdpPacket::new(datagram) {
        Some(p) => Some(
            UdpHeader {
                source: p.get_source(),
                destination: p.get_destination(),
                payload: pnet::packet::Packet::payload(&p).to_vec(),
            },
        ),
        None => None,
    }
}

/// Trusted: the `Ipv6Addr` that pnet's packets give for an address, made
/// here from its sixteen octets, and the text that its `Display` writes.
/// The text depends on the octets alone; [`ipv6_text`] is its name.
#[verifier::external_body]
pub(crate) fn ipv6_address_text(octets: &[u8; 16]) -> (text: String)
    ensures
        text@ == ipv6_text(octets@),
{
    pnet::util::core_net::Ipv6Addr::from(*octets).to_string()
}

/// The number that two bytes give when the first is the more significant.
fn read_be16(high: u8, low: u8) -> (n: usize)
    ensures
        n == be16(high, low),
{
    256 * (high as usize) + (low as usize)
}

/// Decodes `packet` as IPv4.
///
/// There is no header where the bytes are fewer than twenty, where the
/// header length field claims more bytes than `packet` has, or where the
/// total length field does.
pub fn decode_ipv4(packet: &[u8]) -> (header: Option<Ipv4Header>)
    ensures
        header is Some <==> ipv4_fits(packet@),
        header matches Some(h) ==> {
            &&& h.source@ == packet@.subrange(12, 16)
            &&& h.destination@ == packet@.subrange(16, 20)
            &&& h.next_level_protocol == packet@[9]
            &&& h.payload@ == ipv4_payload(packet@)
        },
{
    if packet.len() < IPV4_HEADER_LEN {
        return None;
    }
    let header_length: usize = 4 * ((packet[0] % 16) as usize);
    let total_length: usize = read_be16(packet[2], packet[3]);
    if header_length > packet.len() || total_length > packet.len() {
        return None;
    }
    read_ipv4(packet)
}

/// Decodes `packet` as IPv6.
///
/// There is no header where the bytes are fewer than forty, or where the
/// payload length field claims more bytes than follow them.
pub fn decode_ipv6(packet: &[u8]) -> (header: Option<Ipv6Header>)
    ensures
        header is Some <==> ipv6_fits(packet@),
        header matches Some(h) ==> {
            &&& h.source@ == packet@.subrange(8, 24)
            &&& h.destination@ == packet@.subrange(24, 40)
            &&& h.next_header == packet@[6]
            &&& h.payload@ == ipv6_payload(packet@)
        },
{
    if packet.len() < IPV6_HEADER_LEN {
        return None;
    }
    let payload_length: usize = read_be16(packet[4], packet[5]);
    if payload_length > packet.len() - IPV6_HEADER_LEN {
        return None;
    }
    read_ipv6(packet)
}

/// Decodes `segment` as TCP.
///
/// There is no header where the bytes are fewer than twenty, or where the
/// data offset claims more bytes than `segment` has.
pub fn decode_tcp(segment: &[u8]) -> (header: Option<TcpHeader>)
    ensures
        header is Some <==> tcp_fits(segment@),
        header matches Some(h) ==> {
            &&& h.source == be16(segment@[0], segment@[1])
            &&& h.destination == be16(segment@[2], segment@[3])
            &&& h.payload@ == tcp_payload(segment@)
        },
{
    if segment.len() < TCP_HEADER_LEN {
        return None;
    }
    let data_offset: usize = 4 * ((segment[12] / 16) as usize);
    if data_offset > segment.len() {
        return None;
    }
    read_tcp(segment)
}

/// Decodes `datagram` as UDP.
///
/// There is no header where the bytes are fewer than eight, or where the
/// length field claims more bytes than `datagram` has.
pub fn decode_udp(datagram: &[u8]) -> (header: Option<UdpHeader>)
    ensures
        header is Some <==> udp_fits(datagram@),
        header matches Some(h) ==> {
            &&& h.source == be16(datagram@[0], datagram@[1])
            &&& h.destination == be16(datagram@[2], datagram@[3])
            &&& h.payload@ == udp_payload(datagram@)
        },
{
    if datagram.len() < UDP_HEADER_LEN {
        return None;
    }
    let length: usize = read_be16(datagram[4], datagram[5]);
    if length > datagram.len() {
        return None;
    }
    read_udp(datagram)
}

} // verus!
