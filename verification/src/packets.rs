//! The headers that a captured frame is decoded into, and the view that
//! they share: a source, a destination and a payload.
//!
//! A header holds what was read from the wire as plain values. The network
//! layer names its endpoints by address, the transport layer by port.

use vstd::prelude::*;
use crate::text::{decimal, dotted_quad, ipv4_text, port_text};
use crate::wire::{ipv6_address_text, ipv6_text};

verus! {

/// What every decoded header can tell about the packet it leads: where it
/// comes from, where it goes, and the bytes that it carries.
pub trait GettableEndPoints {
    /// The source, as the text that `get_source` returns.
    spec fn source_text(&self) -> Seq<char>;

    /// The destination, as the text that `get_destination` returns.
    spec fn destination_text(&self) -> Seq<char>;

    /// The bytes after the header, as `get_payload` returns them.
    spec fn payload_bytes(&self) -> Seq<u8>;

    /// The source in the notation of the header's protocol.
    fn get_source(&self) -> (text: String)
        ensures
            text@ == self.source_text(),
    ;

    /// The destination in the notation of the header's protocol.
    fn get_destination(&self) -> (text: String)
        ensures
            text@ == self.destination_text(),
    ;

    /// The bytes that follow the header.
    fn get_payload(&self) -> (bytes: &[u8])
        ensures
            bytes@ == self.payload_bytes(),
    ;
}

/// An Ethernet frame: the type of what it carries, and what it carries.
#[derive(Debug, PartialEq, Eq)]
pub struct EthernetHeader {
    /// The EtherType field.
    pub ethertype: u16,
    /// The bytes after the Ethernet header.
    pub payload: Vec<u8>,
}

/// An IPv4 packet.
#[derive(Debug, PartialEq, Eq)]
pub struct Ipv4Header {
    /// The four octets of the source address.
    pub source: [u8; 4],
    /// The four octets of the destination address.
    pub destination: [u8; 4],
    /// The protocol field, which names the transport protocol.
    pub next_level_protocol: u8,
    /// The bytes after the header and its options.
    pub payload: Vec<u8>,
}

/// An IPv6 packet.
#[derive(Debug, PartialEq, Eq)]
pub struct Ipv6Header {
    /// The sixteen octets of the source address.
    pub source: [u8; 16],
    /// The sixteen octets of the destination address.
    pub destination: [u8; 16],
    /// The next-header field, which names what follows the fixed header.
    pub next_header: u8,
    /// The bytes after the fixed header.
    pub payload: Vec<u8>,
}

/// A TCP segment.
#[derive(Debug, PartialEq, Eq)]
pub struct TcpHeader {
    /// The source port.
    pub source: u16,
    /// The destination port.
    pub destination: u16,
    /// The bytes after the header and its options.
    pub payload: Vec<u8>,
}

/// A UDP datagram.
#[derive(Debug, PartialEq, Eq)]
pub struct UdpHeader {
    /// The source port.
    pub source: u16,
    /// The destination port.
    pub destination: u16,
    /// The bytes after the header.
    pub payload: Vec<u8>,
}

impl GettableEndPoints for Ipv4Header {
    /// The source address in dot-decimal notation.
    open spec fn source_text(&self) -> Seq<char> {
        dotted_quad(self.source@)
    }

    /// The destination address in dot-decimal notation.
    open spec fn destination_text(&self) -> Seq<char> {
        dotted_quad(self.destination@)
    }

    open spec fn payload_bytes(&self) -> Seq<u8> {
        self.payload@
    }

    fn get_source(&self) -> (text: String) {
        ipv4_text(&self.source)
    }

    fn get_destination(&self) -> (text: String) {
        ipv4_text(&self.destination)
    }

    fn get_payload(&self) -> (bytes: &[u8]) {
        self.payload.as_slice()
    }
}

impl GettableEndPoints for Ipv6Header {
    /// The source address in the notation that [`ipv6_text`] names.
    open spec fn source_text(&self) -> Seq<char> {
        ipv6_text(self.source@)
    }

    /// The destination address in the notation that [`ipv6_text`] names.
    open spec fn destination_text(&self) -> Seq<char> {
        ipv6_text(self.destination@)
    }

    open spec fn payload_bytes(&self) -> Seq<u8> {
        self.payload@
    }

    fn get_source(&self) -> (text: String) {
        ipv6_address_text(&self.source)
    }

    fn get_destination(&self) -> (text: String) {
        ipv6_address_text(&self.destination)
    }

    fn get_payload(&self) -> (bytes: &[u8]) {
        self.payload.as_slice()
    }
}

impl GettableEndPoints for TcpHeader {
    /// The source port in decimal.
    open spec fn source_text(&self) -> Seq<char> {
        decimal(self.source as nat)
    }

    /// The destination port in decimal.
    open spec fn destination_text(&self) -> Seq<char> {
        decimal(self.destination as nat)
    }

    open spec fn payload_bytes(&self) -> Seq<u8> {
        self.payload@
    }

    fn get_source(&self) -> (text: String) {
        port_text(self.source)
    }

    fn get_destination(&self) -> (text: String) {
        port_text(self.destination)
    }

    fn get_payload(&self) -> (bytes: &[u8]) {
        self.payload.as_slice()
    }
}

impl GettableEndPoints for UdpHeader {
    /// The source port in decimal.
    open spec fn source_text(&self) -> Seq<char> {
        decimal(self.source as nat)
    }

    /// The destination port in decimal.
    open spec fn destination_text(&self) -> Seq<char> {
        decimal(self.destination as nat)
    }

    open spec fn payload_bytes(&self) -> Seq<u8> {
        self.payload@
    }

    fn get_source(&self) -> (text: String) {
        port_text(self.source)
    }

    fn get_destination(&self) -> (text: String) {
        port_text(self.destination)
    }

    fn get_payload(&self) -> (bytes: &[u8]) {
        self.payload.as_slice()
    }
}

} // verus!
