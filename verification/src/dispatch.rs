//! Classifying a captured frame: by its EtherType, then by the transport
//! protocol that its network-layer header names.
//!
//! Nothing is printed here. Each function hands back what is to be shown:
//! the report of a TCP or UDP packet, or the reason why there is none.

use vstd::prelude::*;
use crate::hexdump::{print_packet_info, report};
use crate::packets::{EthernetHeader, GettableEndPoints};
use crate::text::{decimal, dotted_quad};
use crate::wire::{
    be16, decode_ipv4, decode_ipv6, decode_tcp, decode_udp, ethernet_ethertype, ethernet_payload,
    ipv4_fits, ipv4_payload, ipv6_fits, ipv6_payload, ipv6_text, read_ethernet, tcp_fits,
    tcp_payload, udp_fits, udp_payload, ETHERNET_HEADER_LEN,
};

verus! {

/// EtherType of IPv4.
pub const ETHERTYPE_IPV4: u16 = 0x0800;

/// EtherType of IPv6.
pub const ETHERTYPE_IPV6: u16 = 0x86DD;

/// Protocol number of TCP.
pub const PROTOCOL_TCP: u8 = 6;

/// Protocol number of UDP.
pub const PROTOCOL_UDP: u8 = 17;

/// What became of one frame.
#[derive(Debug, PartialEq, Eq)]
pub enum Outcome {
    /// The frame carries TCP or UDP: the report to print.
    Report(String),
    /// The EtherType is neither IPv4 nor IPv6.
    UnsupportedFrame,
    /// The network-layer header names neither TCP nor UDP.
    UnsupportedTransport,
    /// The header that was announced could not be decoded: the bytes are
    /// too few for it, or one of its length fields claims more bytes than
    /// are there. The frame is passed over in silence.
    Dropped,
}

/// An [`Outcome`] as a mathematical value: the same cases, the report as
/// a sequence of characters.
pub enum OutcomeView {
    /// The report to print.
    Report(Seq<char>),
    /// The EtherType is neither IPv4 nor IPv6.
    UnsupportedFrame,
    /// The network-layer header names neither TCP nor UDP.
    UnsupportedTransport,
    /// The header that was announced could not be decoded.
    Dropped,
}

impl OutcomeView {
    /// The text that is printed for the frame, if any.
    pub open spec fn report(self) -> Option<Seq<char>> {
        match self {
            OutcomeView::Report(text) => Some(text),
            _ => None,
        }
    }

    /// The informational messages that are logged for the frame.
    pub open spec fn notices(self) -> Seq<Seq<char>> {
        match self {
            OutcomeView::UnsupportedFrame => seq!["Not an Ipv4 or Ipv6 packet"@],
            OutcomeView::UnsupportedTransport => seq!["Not a Tcp or Udp packet"@],
            _ => Seq::empty(),
        }
    }
}

impl View for Outcome {
    type V = OutcomeView;

    open spec fn view(&self) -> OutcomeView {
        match self {
            Outcome::Report(text) => OutcomeView::Report(text@),
            Outcome::UnsupportedFrame => OutcomeView::UnsupportedFrame,
            Outcome::UnsupportedTransport => OutcomeView::UnsupportedTransport,
            Outcome::Dropped => OutcomeView::Dropped,
        }
    }
}

impl Outcome {
    /// The informational message to log for the frame, if there is one.
    pub fn notice(&self) -> (message: Option<&'static str>)
        ensures
            message is Some <==> self@.notices().len() > 0,
            message matches Some(m) ==> self@.notices().len() == 1 && self@.notices()[0] == m@,
    {
        match self {
            Outcome::UnsupportedFrame => Some("Not an Ipv4 or Ipv6 packet"),
            Outcome::UnsupportedTransport => Some("Not a Tcp or Udp packet"),
            _ => None,
        }
    }
}

/// A frame too short to hold an Ethernet header.
#[derive(Debug, Clone, Copy, PartialEq, Eq)]
pub struct TruncatedFrame {
    /// Length of the frame in bytes.
    pub length: usize,
}

/// The report for a TCP segment that came from `l3_source` for
/// `l3_destination`, or `None` where `segment` does not hold all that a
/// TCP header in it announces.
pub open spec fn tcp_report(
    l3_source: Seq<char>,
    l3_destination: Seq<char>,
    segment: Seq<u8>,
) -> Option<Seq<char>> {
    if tcp_fits(segment) {
        Some(
            report(
                "TCP"@,
                l3_source,
                decimal(be16(segment[0], segment[1]) as nat),
                l3_destination,
                decimal(be16(segment[2], segment[3]) as nat),
                tcp_payload(segment),
            ),
        )
    } else {
        None
    }
}

/// The report for a UDP datagram that came from `l3_source` for
/// `l3_destination`, or `None` where `datagram` does not hold all that a
/// UDP header in it announces. The report names the protocol `TCP`, as it does for a TCP
/// segment.
pub open spec fn udp_report(
    l3_source: Seq<char>,
    l3_destination: Seq<char>,
    datagram: Seq<u8>,
) -> Option<Seq<char>> {
    if udp_fits(datagram) {
        Some(
            report(
                "TCP"@,
                l3_source,
                decimal(be16(datagram[0], datagram[1]) as nat),
                l3_destination,
                decimal(be16(datagram[2], datagram[3]) as nat),
                udp_payload(datagram),
            ),
        )
    } else {
        None
    }
}

/// The outcome for a transport report that was made, or could not be made.
pub open spec fn rendered(text: Option<Seq<char>>) -> OutcomeView {
    match text {
        Some(t) => OutcomeView::Report(t),
        None => OutcomeView::Dropped,
    }
}

/// The outcome for what a network-layer header leads: `payload`, of the
/// transport protocol with the number `protocol`.
pub open spec fn transport_outcome(
    protocol: u8,
    l3_source: Seq<char>,
    l3_destination: Seq<char>,
    payload: Seq<u8>,
) -> OutcomeView {
    if protocol == PROTOCOL_TCP {
        rendered(tcp_report(l3_source, l3_destination, payload))
    } else if protocol == PROTOCOL_UDP {
        rendered(udp_report(l3_source, l3_destination, payload))
    } else {
        OutcomeView::UnsupportedTransport
    }
}

/// The outcome for the bytes of an IPv4 packet.
pub open spec fn ipv4_outcome(packet: Seq<u8>) -> OutcomeView {
    if ipv4_fits(packet) {
        transport_outcome(
            packet[9],
            dotted_quad(packet.subrange(12, 16)),
            dotted_quad(packet.subrange(16, 20)),
            ipv4_payload(packet),
        )
    } else {
        OutcomeView::Dropped
    }
}

/// The outcome for the bytes of an IPv6 packet.
pub open spec fn ipv6_outcome(packet: Seq<u8>) -> OutcomeView {
    if ipv6_fits(packet) {
        transport_outcome(
            packet[6],
            ipv6_text(packet.subrange(8, 24)),
            ipv6_text(packet.subrange(24, 40)),
            ipv6_payload(packet),
        )
    } else {
        OutcomeView::Dropped
    }
}

/// The outcome for a frame that is long enough for an Ethernet header.
pub open spec fn frame_outcome(frame: Seq<u8>) -> OutcomeView
    recommends
        frame.len() >= ETHERNET_HEADER_LEN,
{
    if ethernet_ethertype(frame) == ETHERTYPE_IPV4 {
        ipv4_outcome(ethernet_payload(frame))
    } else if ethernet_ethertype(frame) == ETHERTYPE_IPV6 {
        ipv6_outcome(ethernet_payload(frame))
    } else {
        OutcomeView::UnsupportedFrame
    }
}

/// A frame whose EtherType is neither IPv4 nor IPv6 has no report and
/// exactly one informational message.
pub proof fn lemma_unsupported_ethertype(frame: Seq<u8>)
    requires
        frame.len() >= ETHERNET_HEADER_LEN,
        ethernet_ethertype(frame) != ETHERTYPE_IPV4,
        ethernet_ethertype(frame) != ETHERTYPE_IPV6,
    ensures
        frame_outcome(frame).report() is None,
        frame_outcome(frame).notices().len() == 1,
{
}

/// An IPv4 packet that holds all that its header announces, and whose
/// protocol field names neither TCP nor UDP, has no report and exactly one
/// informational message, and so has the frame that carries it.
pub proof fn lemma_unsupported_transport_ipv4(frame: Seq<u8>)
    requires
        frame.len() >= ETHERNET_HEADER_LEN,
        ethernet_ethertype(frame) == ETHERTYPE_IPV4,
        ipv4_fits(ethernet_payload(frame)),
        ethernet_payload(frame)[9] != PROTOCOL_TCP,
        ethernet_payload(frame)[9] != PROTOCOL_UDP,
    ensures
        ipv4_outcome(ethernet_payload(frame)) == frame_outcome(frame),
        frame_outcome(frame).report() is None,
        frame_outcome(frame).notices().len() == 1,
{
}

/// An IPv6 packet that holds all that its header announces, and whose
/// next-header field names neither TCP nor UDP, has no report and exactly
/// one informational message, and so has the frame that carries it.
pub proof fn lemma_unsupported_transport_ipv6(frame: Seq<u8>)
    requires
        frame.len() >= ETHERNET_HEADER_LEN,
        ethernet_ethertype(frame) == ETHERTYPE_IPV6,
        ipv6_fits(ethernet_payload(frame)),
        ethernet_payload(frame)[6] != PROTOCOL_TCP,
        ethernet_payload(frame)[6] != PROTOCOL_UDP,
    ensures
        ipv6_outcome(ethernet_payload(frame)) == frame_outcome(frame),
        frame_outcome(frame).report() is None,
        frame_outcome(frame).notices().len() == 1,
{
}

/// A header whose length field claims more bytes than the buffer holds is
/// passed over in silence, whatever it carries: there is no report and no
/// informational message.
pub proof fn lemma_overlong_claim_is_dropped(frame: Seq<u8>)
    requires
        frame.len() >= ETHERNET_HEADER_LEN,
    ensures
        ethernet_ethertype(frame) == ETHERTYPE_IPV4 && !ipv4_fits(ethernet_payload(frame))
            ==> frame_outcome(frame) == OutcomeView::Dropped,
        ethernet_ethertype(frame) == ETHERTYPE_IPV6 && !ipv6_fits(ethernet_payload(frame))
            ==> frame_outcome(frame) == OutcomeView::Dropped,
        forall|source: Seq<char>, destination: Seq<char>, segment: Seq<u8>|
            !tcp_fits(segment) ==> #[trigger] transport_outcome(
                PROTOCOL_TCP,
                source,
                destination,
                segment,
            ) == OutcomeView::Dropped,
        forall|source: Seq<char>, destination: Seq<char>, datagram: Seq<u8>|
            !udp_fits(datagram) ==> #[trigger] transport_outcome(
                PROTOCOL_UDP,
                source,
                destination,
                datagram,
            ) == OutcomeView::Dropped,
        OutcomeView::Dropped.report() is None,
        OutcomeView::Dropped.notices().len() == 0,
{
}

/// Reads the payload of `packet` as a TCP segment and gives its report.
/// There is none where the payload is too short for a TCP header, or
/// where the data offset of the header claims more bytes than are there.
pub fn tcp_handler<P: GettableEndPoints>(packet: &P) -> (text: Option<String>)
    ensures
        text is Some <==> tcp_fits(packet.payload_bytes()),
        text matches Some(t) ==> Some(t@) == tcp_report(
            packet.source_text(),
            packet.destination_text(),
            packet.payload_bytes(),
        ),
{
    match decode_tcp(packet.get_payload()) {
        Some(tcp) => Some(print_packet_info(packet, &tcp, "TCP")),
        None => None,
    }
}

/// Reads the payload of `packet` as a UDP datagram and gives its report.
/// There is none where the payload is too short for a UDP header, or
/// where the length field of the header claims more bytes than are there.
pub fn udp_handler<P: GettableEndPoints>(packet: &P) -> (text: Option<String>)
    ensures
        text is Some <==> udp_fits(packet.payload_bytes()),
        text matches Some(t) ==> Some(t@) == udp_report(
            packet.source_text(),
            packet.destination_text(),
            packet.payload_bytes(),
        ),
{
    match decode_udp(packet.get_payload()) {
        Some(udp) => Some(print_packet_info(packet, &udp, "TCP")),
        None => None,
    }
}

fn outcome_of(text: Option<String>) -> (outcome: Outcome)
    ensures
        text matches Some(t) ==> outcome@ == OutcomeView::Report(t@),
        text is None ==> outcome@ == OutcomeView::Dropped,
{
    match text {
        Some(t) => Outcome::Report(t),
        None => Outcome::Dropped,
    }
}

/// Decodes the payload of an Ethernet frame as IPv4 and hands it on by
/// its protocol field. A payload that does not hold all that its IPv4
/// header announces is dropped.
pub fn ipv4_handler(ethernet: &EthernetHeader) -> (outcome: Outcome)
    ensures
        outcome@ == ipv4_outcome(ethernet.payload@),
{
    match decode_ipv4(ethernet.payload.as_slice()) {
        Some(packet) => {
            if packet.next_level_protocol == PROTOCOL_TCP {
                outcome_of(tcp_handler(&packet))
            } else if packet.next_level_protocol == PROTOCOL_UDP {
                outcome_of(udp_handler(&packet))
            } else {
                Outcome::UnsupportedTransport
            }
        },
        None => Outcome::Dropped,
    }
}

/// Decodes the payload of an Ethernet frame as IPv6 and hands it on by
/// its next-header field. A payload that does not hold all that its IPv6
/// header announces is dropped.
pub fn ipv6_handler(ethernet: &EthernetHeader) -> (outcome: Outcome)
    ensures
        outcome@ == ipv6_outcome(ethernet.payload@),
{
    match decode_ipv6(ethernet.payload.as_slice()) {
        Some(packet) => {
            if packet.next_header == PROTOCOL_TCP {
                outcome_of(tcp_handler(&packet))
            } else if packet.next_header == PROTOCOL_UDP {
                outcome_of(udp_handler(&packet))
            } else {
                Outcome::UnsupportedTransport
            }
        },
        None => Outcome::Dropped,
    }
}

/// Classifies one captured frame.
///
/// A frame of fewer than [`ETHERNET_HEADER_LEN`] bytes is refused. Any
/// other frame has an outcome: by its EtherType it is decoded as IPv4 or
/// as IPv6, or reported as unsupported.
pub fn dispatch(frame: &[u8]) -> (result: Result<Outcome, TruncatedFrame>)
    ensures
        result is Ok <==> frame@.len() >= ETHERNET_HEADER_LEN,
        result matches Ok(outcome) ==> outcome@ == frame_outcome(frame@),
        result matches Err(e) ==> e.length == frame@.len(),
{
    match read_ethernet(frame) {
        Some(ethernet) => {
            if ethernet.ethertype == ETHERTYPE_IPV4 {
                Ok(ipv4_handler(&ethernet))
            } else if ethernet.ethertype == ETHERTYPE_IPV6 {
                Ok(ipv6_handler(&ethernet))
            } else {
                Ok(Outcome::UnsupportedFrame)
            }
        },
        None => Err(TruncatedFrame { length: frame.len() }),
    }
}

} // verus!
