use packet_dump::packets::{
    EthernetHeader, GettableEndPoints, Ipv4Header, Ipv6Header, TcpHeader, UdpHeader,
};

fn ipv6(segments: [u16; 8]) -> [u8; 16] {
    let mut octets = [0u8; 16];
    for (i, s) in segments.iter().enumerate() {
        octets[2 * i] = (s >> 8) as u8;
        octets[2 * i + 1] = (s & 0xff) as u8;
    }
    octets
}

#[test]
fn ipv4_header_shows_addresses_in_dot_decimal() {
    let header = Ipv4Header {
        source: [10, 0, 0, 1],
        destination: [172, 16, 254, 3],
        next_level_protocol: 6,
        payload: vec![1, 2, 3],
    };
    assert_eq!(header.get_source(), "10.0.0.1");
    assert_eq!(header.get_destination(), "172.16.254.3");
    assert_eq!(header.get_payload(), &[1, 2, 3]);
}

#[test]
fn ipv6_header_shows_addresses_in_colon_notation() {
    let header = Ipv6Header {
        source: ipv6([0x2001, 0x0db8, 0, 0, 0, 0, 0, 1]),
        destination: ipv6([0xfe80, 0, 0, 0, 0x0202, 0xb3ff, 0xfe1e, 0x8329]),
        next_header: 17,
        payload: vec![9],
    };
    assert_eq!(header.get_source(), "2001:db8::1");
    assert_eq!(header.get_destination(), "fe80::202:b3ff:fe1e:8329");
    assert_eq!(header.get_payload(), &[9]);
}

#[test]
fn ipv6_text_of_special_addresses() {
    let header = Ipv6Header {
        source: ipv6([0, 0, 0, 0, 0, 0, 0, 0]),
        destination: ipv6([0, 0, 0, 0, 0, 0, 0, 1]),
        next_header: 6,
        payload: vec![],
    };
    assert_eq!(header.get_source(), "::");
    assert_eq!(header.get_destination(), "::1");
    let full = Ipv6Header {
        source: ipv6([1, 2, 3, 4, 5, 6, 7, 8]),
        destination: ipv6([0xffff; 8]),
        next_header: 6,
        payload: vec![],
    };
    assert_eq!(full.get_source(), "1:2:3:4:5:6:7:8");
    assert_eq!(full.get_destination(), "ffff:ffff:ffff:ffff:ffff:ffff:ffff:ffff");
}

#[test]
fn ipv6_text_is_that_of_the_address_type() {
    let octets = ipv6([0x2001, 0x0db8, 0x85a3, 0, 0, 0x8a2e, 0x0370, 0x7334]);
    let header =
        Ipv6Header { source: octets, destination: octets, next_header: 6, payload: vec![] };
    let expected = pnet::util::core_net::Ipv6Addr::from(octets).to_string();
    assert_eq!(header.get_source(), expected);
    assert_eq!(header.get_destination(), expected);
    assert_ne!(header.get_source().as_bytes(), &octets[..]);
}

#[test]
fn tcp_header_shows_ports_in_decimal() {
    let header = TcpHeader { source: 443, destination: 51234, payload: b"abc".to_vec() };
    assert_eq!(header.get_source(), "443");
    assert_eq!(header.get_destination(), "51234");
    assert_eq!(header.get_payload(), b"abc");
}

#[test]
fn udp_header_shows_ports_in_decimal() {
    let header = UdpHeader { source: 0, destination: 65535, payload: vec![] };
    assert_eq!(header.get_source(), "0");
    assert_eq!(header.get_destination(), "65535");
    assert_eq!(header.get_payload(), &[] as &[u8]);
}

#[test]
fn headers_compare_by_their_fields() {
    let a = EthernetHeader { ethertype: 0x0800, payload: vec![1] };
    let b = EthernetHeader { ethertype: 0x0800, payload: vec![1] };
    let c = EthernetHeader { ethertype: 0x86dd, payload: vec![1] };
    assert_eq!(a, b);
    assert_ne!(a, c);
}
