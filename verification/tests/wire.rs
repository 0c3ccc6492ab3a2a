use packet_dump::packets::{Ipv4Header, Ipv6Header, TcpHeader, UdpHeader};
use packet_dump::wire::{decode_ipv4, decode_ipv6, decode_tcp, decode_udp};

fn ipv4_bytes(payload: &[u8]) -> Vec<u8> {
    let total = (20 + payload.len()) as u16;
    let mut packet = vec![0x45, 0, (total >> 8) as u8, (total & 0xff) as u8];
    packet.extend_from_slice(&[0, 0, 0, 0, 64, 6, 0, 0, 192, 0, 2, 1, 198, 51, 100, 2]);
    packet.extend_from_slice(payload);
    packet
}

fn ipv6_bytes(payload: &[u8]) -> Vec<u8> {
    let mut packet = vec![0x60, 0, 0, 0, 0, payload.len() as u8, 17, 64];
    packet.extend_from_slice(&[0xfe, 0x80, 0, 0, 0, 0, 0, 0, 0, 0, 0, 0, 0, 0, 0, 1]);
    packet.extend_from_slice(&[0xff, 0x02, 0, 0, 0, 0, 0, 0, 0, 0, 0, 0, 0, 0, 0, 0xfb]);
    packet.extend_from_slice(payload);
    packet
}

fn tcp_bytes(payload: &[u8]) -> Vec<u8> {
    let mut segment = vec![0x01, 0xbb, 0xc8, 0x22, 0, 0, 0, 1, 0, 0, 0, 2, 0x50, 0x10, 1, 0];
    segment.extend_from_slice(&[0, 0, 0, 0]);
    segment.extend_from_slice(payload);
    segment
}

fn udp_bytes(payload: &[u8]) -> Vec<u8> {
    let mut datagram = vec![0x14, 0xe9, 0x00, 0x35, 0, (8 + payload.len()) as u8, 0, 0];
    datagram.extend_from_slice(payload);
    datagram
}

#[test]
fn decode_ipv4_reads_addresses_protocol_and_payload() {
    let expected = Ipv4Header {
        source: [192, 0, 2, 1],
        destination: [198, 51, 100, 2],
        next_level_protocol: 6,
        payload: vec![7, 8, 9],
    };
    assert_eq!(decode_ipv4(&ipv4_bytes(&[7, 8, 9])), Some(expected));
}

#[test]
fn decode_ipv4_refuses_what_does_not_fit() {
    let whole = ipv4_bytes(&[7, 8, 9]);
    for len in 0..whole.len() {
        assert_eq!(decode_ipv4(&whole[..len]), None, "length {}", len);
    }
    let mut long_header = whole.clone();
    long_header[0] = 0x46;
    assert_eq!(decode_ipv4(&long_header), None);
    long_header.push(0);
    let decoded = decode_ipv4(&long_header).unwrap();
    assert_eq!(decoded.payload, Vec::<u8>::new());
    let mut long_total = whole.clone();
    long_total[3] = 24;
    assert_eq!(decode_ipv4(&long_total), None);
    long_total[3] = 22;
    assert_eq!(decode_ipv4(&long_total).unwrap().payload, vec![7, 8]);
}

#[test]
fn decode_ipv6_reads_addresses_next_header_and_payload() {
    let expected = Ipv6Header {
        source: [0xfe, 0x80, 0, 0, 0, 0, 0, 0, 0, 0, 0, 0, 0, 0, 0, 1],
        destination: [0xff, 0x02, 0, 0, 0, 0, 0, 0, 0, 0, 0, 0, 0, 0, 0, 0xfb],
        next_header: 17,
        payload: vec![1, 2],
    };
    assert_eq!(decode_ipv6(&ipv6_bytes(&[1, 2])), Some(expected));
}

#[test]
fn decode_ipv6_refuses_what_does_not_fit() {
    let whole = ipv6_bytes(&[1, 2]);
    for len in 0..whole.len() {
        assert_eq!(decode_ipv6(&whole[..len]), None, "length {}", len);
    }
    let mut long_payload = whole.clone();
    long_payload[5] = 3;
    assert_eq!(decode_ipv6(&long_payload), None);
    long_payload[4] = 0xff;
    long_payload[5] = 0xff;
    assert_eq!(decode_ipv6(&long_payload), None);
    long_payload[4] = 0;
    long_payload[5] = 1;
    assert_eq!(decode_ipv6(&long_payload).unwrap().payload, vec![1]);
}

#[test]
fn decode_tcp_reads_ports_and_payload() {
    let expected = TcpHeader { source: 443, destination: 51234, payload: b"xyz".to_vec() };
    assert_eq!(decode_tcp(&tcp_bytes(b"xyz")), Some(expected));
}

#[test]
fn decode_tcp_refuses_what_does_not_fit() {
    let whole = tcp_bytes(b"xyz");
    for len in 0..20 {
        assert_eq!(decode_tcp(&whole[..len]), None, "length {}", len);
    }
    for words in 0u8..16 {
        let mut segment = whole.clone();
        segment[12] = words << 4;
        let decoded = decode_tcp(&segment);
        if 4 * (words as usize) > segment.len() {
            assert_eq!(decoded, None, "data offset {}", words);
        } else {
            let start = (4 * words as usize).max(20);
            assert_eq!(decoded.unwrap().payload, segment[start..].to_vec());
        }
    }
}

#[test]
fn decode_udp_reads_ports_and_payload() {
    let expected = UdpHeader { source: 5353, destination: 53, payload: b"q".to_vec() };
    assert_eq!(decode_udp(&udp_bytes(b"q")), Some(expected));
}

#[test]
fn decode_udp_refuses_what_does_not_fit() {
    let whole = udp_bytes(b"q");
    for len in 0..whole.len() {
        assert_eq!(decode_udp(&whole[..len]), None, "length {}", len);
    }
    let mut long = whole.clone();
    long[5] = 10;
    assert_eq!(decode_udp(&long), None);
    long[5] = 0;
    assert_eq!(decode_udp(&long).unwrap().payload, b"q".to_vec());
}
