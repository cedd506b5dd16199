use nlyzer::bytes::{encode_be16, encode_be32, encode_mac};
use nlyzer::headers::{decode_ethernet, decode_ipv4, decode_tcp, decode_udp, DecodeError};
use nlyzer::walk::{walk_frame, DecodedHeader};

/// A minimal Ethernet frame: destination MAC, source MAC, ethertype, payload.
fn eth_frame(dst: [u8; 6], src: [u8; 6], ethertype: u16, payload: &[u8]) -> Vec<u8> {
    let mut b = Vec::new();
    b.extend_from_slice(&dst);
    b.extend_from_slice(&src);
    b.push((ethertype >> 8) as u8);
    b.push(ethertype as u8);
    b.extend_from_slice(payload);
    b
}

/// A minimal 20-byte IPv4 header with no options.
fn ipv4_header(src: [u8; 4], dst: [u8; 4], protocol: u8) -> Vec<u8> {
    let mut b = vec![0x45u8, 0, 0, 0, 0, 0, 0, 0, 64, protocol, 0, 0];
    b.extend_from_slice(&src);
    b.extend_from_slice(&dst);
    b
}

/// A minimal 8-byte UDP header.
fn udp_header(src_port: u16, dst_port: u16, length: u16, checksum: u16) -> Vec<u8> {
    let mut b = Vec::new();
    for v in [src_port, dst_port, length, checksum] {
        b.push((v >> 8) as u8);
        b.push(v as u8);
    }
    b
}

#[test]
fn short_frame_yields_no_headers() {
    let b = [0u8; 13];
    assert_eq!(decode_ethernet(&b), Err(DecodeError::TooShort));
    assert!(walk_frame(&b).is_empty());
    assert!(walk_frame(&[]).is_empty());
}

#[test]
fn ethernet_fields_exact() {
    let b = eth_frame(
        [0x11, 0x22, 0x33, 0x44, 0x55, 0x66],
        [0xaa, 0xbb, 0xcc, 0xdd, 0xee, 0xff],
        0x0806,
        b"hello",
    );
    let (h, payload) = decode_ethernet(&b).unwrap();
    assert_eq!(h.dst_mac, 0x112233445566);
    assert_eq!(h.src_mac, 0xaabbccddeeff);
    assert_eq!(h.ethertype, 0x0806);
    assert_eq!(payload, b"hello");
}

#[test]
fn unknown_ethertype_stops_after_ethernet() {
    let b = eth_frame([1; 6], [2; 6], 0x1234, &[0u8; 60]);
    let layers = walk_frame(&b);
    assert_eq!(layers.len(), 1);
    assert!(matches!(layers[0], DecodedHeader::Ethernet(_)));
}

#[test]
fn decoding_twice_is_identical() {
    let mut payload = ipv4_header([10, 0, 0, 1], [10, 0, 0, 2], 17);
    payload.extend_from_slice(&udp_header(5353, 5353, 12, 0));
    payload.extend_from_slice(b"data");
    let b = eth_frame([1; 6], [2; 6], 0x0800, &payload);
    let first = walk_frame(&b);
    let second = walk_frame(&b);
    assert_eq!(first, second);
}

#[test]
fn udp_frame_walks_three_layers() {
    let mut payload = ipv4_header([10, 0, 0, 1], [10, 0, 0, 2], 17);
    payload.extend_from_slice(&udp_header(5353, 53, 12, 0xbeef));
    payload.extend_from_slice(b"data");
    let b = eth_frame([1; 6], [2; 6], 0x0800, &payload);
    let layers = walk_frame(&b);
    assert_eq!(layers.len(), 3);
    match (&layers[0], &layers[1], &layers[2]) {
        (DecodedHeader::Ethernet(e), DecodedHeader::Ipv4(i), DecodedHeader::Udp(u)) => {
            assert_eq!(e.ethertype, 0x0800);
            assert_eq!(i.header_len, 20);
            assert_eq!(i.protocol, 17);
            assert_eq!(i.src_addr, 0x0a000001);
            assert_eq!(i.dst_addr, 0x0a000002);
            assert_eq!(u.src_port, 5353);
            assert_eq!(u.dst_port, 53);
            assert_eq!(u.length, 12);
            assert_eq!(u.checksum, 0xbeef);
        }
        other => panic!("unexpected layers: {:?}", other),
    }
}

#[test]
fn tcp_frame_fields_exact() {
    let mut tcp = Vec::new();
    tcp.extend_from_slice(&[0x01, 0xbb]); // source port 443
    tcp.extend_from_slice(&[0xd4, 0x31]); // destination port 54321
    tcp.extend_from_slice(&[0x00, 0x00, 0x10, 0x00]); // sequence 4096
    tcp.extend_from_slice(&[0x00, 0x00, 0x00, 0x07]); // acknowledgment 7
    tcp.push(0x50); // data offset
    tcp.push(0x12); // SYN|ACK
    tcp.extend_from_slice(&[0, 0, 0, 0, 0, 0]); // window, checksum, urgent
    let mut payload = ipv4_header([192, 168, 0, 1], [192, 168, 0, 2], 6);
    payload.extend_from_slice(&tcp);
    let b = eth_frame([1; 6], [2; 6], 0x0800, &payload);
    let layers = walk_frame(&b);
    assert_eq!(layers.len(), 3);
    match &layers[2] {
        DecodedHeader::Tcp(t) => {
            assert_eq!(t.src_port, 443);
            assert_eq!(t.dst_port, 54321);
            assert_eq!(t.seq_no, 4096);
            assert_eq!(t.ack_no, 7);
            assert_eq!(t.flags, 0x12);
        }
        other => panic!("unexpected layer: {:?}", other),
    }
    let (h, _) = decode_tcp(&tcp).unwrap();
    assert_eq!(h.flags, 0x12);
    assert_eq!(decode_tcp(&tcp[..19]), Err(DecodeError::TooShort));
}

#[test]
fn ipv6_frame_walks_with_udp() {
    let mut v6 = vec![0x60, 0, 0, 0, 0, 12, 17, 64];
    let src: [u8; 16] = [
        0x20, 0x01, 0x0d, 0xb8, 0, 0, 0, 0, 0, 0, 0, 0, 0, 0, 0, 0x01,
    ];
    let dst: [u8; 16] = [0xfe, 0x80, 0, 0, 0, 0, 0, 0, 0, 0, 0, 0, 0, 0, 0, 0x02];
    v6.extend_from_slice(&src);
    v6.extend_from_slice(&dst);
    v6.extend_from_slice(&udp_header(1000, 2000, 12, 0));
    let b = eth_frame([1; 6], [2; 6], 0x86DD, &v6);
    let layers = walk_frame(&b);
    assert_eq!(layers.len(), 3);
    match (&layers[1], &layers[2]) {
        (DecodedHeader::Ipv6(i), DecodedHeader::Udp(u)) => {
            assert_eq!(i.next_header, 17);
            assert_eq!(i.src_hi, 0x20010db800000000);
            assert_eq!(i.src_lo, 0x0000000000000001);
            assert_eq!(i.dst_hi, 0xfe80000000000000);
            assert_eq!(i.dst_lo, 0x0000000000000002);
            assert_eq!(u.src_port, 1000);
            assert_eq!(u.dst_port, 2000);
        }
        other => panic!("unexpected layers: {:?}", other),
    }
    // A 39-byte network payload is too short for the fixed IPv6 header.
    let b2 = eth_frame([1; 6], [2; 6], 0x86DD, &v6[..39]);
    assert_eq!(walk_frame(&b2).len(), 1);
}

#[test]
fn reencode_round_trips_extracted_fields() {
    let mut payload = ipv4_header([10, 1, 2, 3], [172, 16, 254, 9], 17);
    payload.extend_from_slice(&udp_header(4660, 5353, 20, 0x1234));
    payload.extend_from_slice(b"payload.");
    let b = eth_frame(
        [0x11, 0x22, 0x33, 0x44, 0x55, 0x66],
        [0xaa, 0xbb, 0xcc, 0xdd, 0xee, 0xff],
        0x0800,
        &payload,
    );
    let (eth, ip_bytes) = decode_ethernet(&b).unwrap();
    let (ip, udp_bytes) = decode_ipv4(ip_bytes).unwrap();
    let (udp, _) = decode_udp(udp_bytes).unwrap();
    assert_eq!(encode_mac(eth.dst_mac), &b[0..6]);
    assert_eq!(encode_mac(eth.src_mac), &b[6..12]);
    assert_eq!(encode_be16(eth.ethertype), &b[12..14]);
    assert_eq!(encode_be32(ip.src_addr), &ip_bytes[12..16]);
    assert_eq!(encode_be32(ip.dst_addr), &ip_bytes[16..20]);
    assert_eq!(encode_be16(udp.src_port), &udp_bytes[0..2]);
    assert_eq!(encode_be16(udp.dst_port), &udp_bytes[2..4]);
}

#[test]
fn ipv4_header_length_beyond_buffer_is_truncated() {
    // 20 bytes on the wire, but the header-length nibble claims 24.
    let mut h = ipv4_header([10, 0, 0, 1], [10, 0, 0, 2], 17);
    h[0] = 0x46;
    assert_eq!(h.len(), 20);
    assert_eq!(decode_ipv4(&h), Err(DecodeError::TooShort));
    let b = eth_frame([1; 6], [2; 6], 0x0800, &h);
    assert_eq!(walk_frame(&b).len(), 1);
}

#[test]
fn ipv4_rejects_bad_version_and_header_length() {
    let mut h = ipv4_header([1, 2, 3, 4], [5, 6, 7, 8], 6);
    h[0] = 0x65; // version 6
    assert_eq!(decode_ipv4(&h), Err(DecodeError::BadVersion));
    h[0] = 0x44; // version 4, but only 16 header bytes claimed
    assert_eq!(decode_ipv4(&h), Err(DecodeError::BadHeaderLength));
    h[0] = 0x45;
    assert!(decode_ipv4(&h).is_ok());
    assert_eq!(decode_ipv4(&h[..19]), Err(DecodeError::TooShort));
}

#[test]
fn truncated_transport_headers_are_local_failures() {
    assert_eq!(decode_udp(&[0u8; 7]), Err(DecodeError::TooShort));
    let mut payload = ipv4_header([10, 0, 0, 1], [10, 0, 0, 2], 17);
    payload.extend_from_slice(&[0u8; 7]); // one byte short of a UDP header
    let b = eth_frame([1; 6], [2; 6], 0x0800, &payload);
    let layers = walk_frame(&b);
    assert_eq!(layers.len(), 2);
    assert!(matches!(layers[1], DecodedHeader::Ipv4(_)));
}

#[test]
fn ipv4_options_shift_the_payload() {
    // A 24-byte header: the UDP header starts after the options.
    let mut h = ipv4_header([10, 0, 0, 1], [10, 0, 0, 2], 17);
    h[0] = 0x46;
    h.extend_from_slice(&[0, 0, 0, 0]); // options
    h.extend_from_slice(&udp_header(7, 9, 8, 0));
    let (ip, rest) = decode_ipv4(&h).unwrap();
    assert_eq!(ip.header_len, 24);
    let (u, _) = decode_udp(rest).unwrap();
    assert_eq!(u.src_port, 7);
    assert_eq!(u.dst_port, 9);
}
