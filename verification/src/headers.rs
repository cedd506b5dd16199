//! Header decoders: pure functions that interpret a byte buffer as one
//! protocol header and hand back the structured fields together with the
//! payload that follows. No decoder reads past the buffer or panics; a
//! buffer too short for the fixed part of a header yields `TooShort`.
use vstd::prelude::*;
use vstd::slice::slice_subrange;
use crate::bytes::{be16_at, be32_at, be64_at, mac_at};

verus! {

/// Why a header could not be decoded from the bytes at hand.
#[derive(Clone, Copy, Debug, PartialEq, Eq, Structural)]
pub enum DecodeError {
    /// The buffer is shorter than the region the header claims.
    TooShort,
    /// The IPv4 version nibble is not 4.
    BadVersion,
    /// The IPv4 header-length field names fewer than 20 bytes.
    BadHeaderLength,
}

/// An Ethernet II frame header. MAC addresses are held as 48-bit values,
/// most significant byte first on the wire.
#[derive(Clone, Copy, Debug, PartialEq, Eq, Structural)]
pub struct EthernetHeader {
    pub dst_mac: u64,
    pub src_mac: u64,
    pub ethertype: u16,
}

/// An IPv4 header: addresses as 32-bit values, the next-protocol code, and
/// the header length in bytes taken from the low nibble of the first byte.
#[derive(Clone, Copy, Debug, PartialEq, Eq, Structural)]
pub struct Ipv4Header {
    pub header_len: usize,
    pub protocol: u8,
    pub src_addr: u32,
    pub dst_addr: u32,
}

/// An IPv6 fixed header: each 128-bit address as two 64-bit halves, most
/// significant first, and the next-header code. Extension headers are not
/// walked; the fixed 40-byte header is the whole model.
#[derive(Clone, Copy, Debug, PartialEq, Eq, Structural)]
pub struct Ipv6Header {
    pub next_header: u8,
    pub src_hi: u64,
    pub src_lo: u64,
    pub dst_hi: u64,
    pub dst_lo: u64,
}

/// A TCP header's fixed fields: ports, sequence and acknowledgment numbers,
/// and the eight flag bits of the thirteenth byte (FIN, SYN, RST, PSH, ACK,
/// URG, ECE, CWR from least to most significant).
#[derive(Clone, Copy, Debug, PartialEq, Eq, Structural)]
pub struct TcpHeader {
    pub src_port: u16,
    pub dst_port: u16,
    pub seq_no: u32,
    pub ack_no: u32,
    pub flags: u8,
}

/// A UDP header: ports, the length field, and the checksum.
#[derive(Clone, Copy, Debug, PartialEq, Eq, Structural)]
pub struct UdpHeader {
    pub src_port: u16,
    pub dst_port: u16,
    pub length: u16,
    pub checksum: u16,
}

/// What the Ethernet decoder returns on the given bytes.
pub open spec fn ethernet_decode(b: Seq<u8>) -> Result<EthernetHeader, DecodeError> {
    if b.len() < 14 {
        Err(DecodeError::TooShort)
    } else {
        Ok(
            EthernetHeader {
                dst_mac: mac_at(b, 0),
                src_mac: mac_at(b, 6),
                ethertype: be16_at(b, 12),
            },
        )
    }
}

/// What the IPv4 decoder returns on the given bytes.
pub open spec fn ipv4_decode(b: Seq<u8>) -> Result<Ipv4Header, DecodeError> {
    if b.len() < 20 {
        Err(DecodeError::TooShort)
    } else if b[0] / 16 != 4 {
        Err(DecodeError::BadVersion)
    } else if b[0] % 16 < 5 {
        Err(DecodeError::BadHeaderLength)
    } else if (b[0] % 16) * 4 > b.len() {
        Err(DecodeError::TooShort)
    } else {
        Ok(
            Ipv4Header {
                header_len: ((b[0] % 16) * 4) as usize,
                protocol: b[9],
                src_addr: be32_at(b, 12),
                dst_addr: be32_at(b, 16),
            },
        )
    }
}

/// What the IPv6 decoder returns on the given bytes.
pub open spec fn ipv6_decode(b: Seq<u8>) -> Result<Ipv6Header, DecodeError> {
    if b.len() < 40 {
        Err(DecodeError::TooShort)
    } else {
        Ok(
            Ipv6Header {
                next_header: b[6],
                src_hi: be64_at(b, 8),
                src_lo: be64_at(b, 16),
                dst_hi: be64_at(b, 24),
                dst_lo: be64_at(b, 32),
            },
        )
    }
}

/// What the TCP decoder returns on the given bytes.
pub open spec fn tcp_decode(b: Seq<u8>) -> Result<TcpHeader, DecodeError> {
    if b.len() < 20 {
        Err(DecodeError::TooShort)
    } else {
        Ok(
            TcpHeader {
                src_port: be16_at(b, 0),
                dst_port: be16_at(b, 2),
                seq_no: be32_at(b, 4),
                ack_no: be32_at(b, 8),
                flags: b[13],
            },
        )
    }
}

/// What the UDP decoder returns on the given bytes.
pub open spec fn udp_decode(b: Seq<u8>) -> Result<UdpHeader, DecodeError> {
    if b.len() < 8 {
        Err(DecodeError::TooShort)
    } else {
        Ok(
            UdpHeader {
                src_port: be16_at(b, 0),
                dst_port: be16_at(b, 2),
                length: be16_at(b, 4),
                checksum: be16_at(b, 6),
            },
        )
    }
}

/// Decodes an Ethernet header; the payload is everything after the first
/// 14 bytes. Fails with `TooShort`, and only then, on fewer than 14 bytes.
pub fn decode_ethernet<'a>(b: &'a [u8]) -> (r: Result<(EthernetHeader, &'a [u8]), DecodeError>)
    ensures
        match ethernet_decode(b@) {
            Ok(h) => r matches Ok(p) && p.0 == h && p.1@ == b@.skip(14),
            Err(e) => r matches Err(e2) && e2 == e,
        },
{
    if b.len() < 14 {
        return Err(DecodeError::TooShort);
    }
    let h = EthernetHeader {
        dst_mac: crate::bytes::read_mac(b, 0),
        src_mac: crate::bytes::read_mac(b, 6),
        ethertype: crate::bytes::read_be16(b, 12),
    };
    let payload = slice_subrange(b, 14, b.len());
    proof {
        assert(payload@ =~= b@.skip(14));
    }
    Ok((h, payload))
}

/// Decodes an IPv4 header. The version nibble must be 4 and the
/// header-length nibble must name at least 20 bytes, all of which must be
/// present; the payload is everything after the named header length.
pub fn decode_ipv4<'a>(b: &'a [u8]) -> (r: Result<(Ipv4Header, &'a [u8]), DecodeError>)
    ensures
        match ipv4_decode(b@) {
            Ok(h) => r matches Ok(p) && p.0 == h && p.1@ == b@.skip(h.header_len as int),
            Err(e) => r matches Err(e2) && e2 == e,
        },
{
    if b.len() < 20 {
        return Err(DecodeError::TooShort);
    }
    let first = b[0];
    if first / 16 != 4 {
        return Err(DecodeError::BadVersion);
    }
    let words = first % 16;
    if words < 5 {
        return Err(DecodeError::BadHeaderLength);
    }
    let header_len: usize = (words as usize) * 4;
    if header_len > b.len() {
        return Err(DecodeError::TooShort);
    }
    let h = Ipv4Header {
        header_len,
        protocol: b[9],
        src_addr: crate::bytes::read_be32(b, 12),
        dst_addr: crate::bytes::read_be32(b, 16),
    };
    let payload = slice_subrange(b, header_len, b.len());
    proof {
        assert(payload@ =~= b@.skip(h.header_len as int));
    }
    Ok((h, payload))
}

/// Decodes the fixed 40-byte IPv6 header; the payload is everything after
/// it. Extension headers are treated as payload.
pub fn decode_ipv6<'a>(b: &'a [u8]) -> (r: Result<(Ipv6Header, &'a [u8]), DecodeError>)
    ensures
        match ipv6_decode(b@) {
            Ok(h) => r matches Ok(p) && p.0 == h && p.1@ == b@.skip(40),
            Err(e) => r matches Err(e2) && e2 == e,
        },
{
    if b.len() < 40 {
        return Err(DecodeError::TooShort);
    }
    let h = Ipv6Header {
        next_header: b[6],
        src_hi: crate::bytes::read_be64(b, 8),
        src_lo: crate::bytes::read_be64(b, 16),
        dst_hi: crate::bytes::read_be64(b, 24),
        dst_lo: crate::bytes::read_be64(b, 32),
    };
    let payload = slice_subrange(b, 40, b.len());
    proof {
        assert(payload@ =~= b@.skip(40));
    }
    Ok((h, payload))
}

/// Decodes the fixed fields of a TCP header; the payload is everything
/// after the 20-byte fixed part (options are not interpreted).
pub fn decode_tcp<'a>(b: &'a [u8]) -> (r: Result<(TcpHeader, &'a [u8]), DecodeError>)
    ensures
        match tcp_decode(b@) {
            Ok(h) => r matches Ok(p) && p.0 == h && p.1@ == b@.skip(20),
            Err(e) => r matches Err(e2) && e2 == e,
        },
{
    if b.len() < 20 {
        return Err(DecodeError::TooShort);
    }
    let h = TcpHeader {
        src_port: crate::bytes::read_be16(b, 0),
        dst_port: crate::bytes::read_be16(b, 2),
        seq_no: crate::bytes::read_be32(b, 4),
        ack_no: crate::bytes::read_be32(b, 8),
        flags: b[13],
    };
    let payload = slice_subrange(b, 20, b.len());
    proof {
        assert(payload@ =~= b@.skip(20));
    }
    Ok((h, payload))
}

/// Decodes the fixed 8-byte UDP header; the payload is everything after it.
pub fn decode_udp<'a>(b: &'a [u8]) -> (r: Result<(UdpHeader, &'a [u8]), DecodeError>)
    ensures
        match udp_decode(b@) {
            Ok(h) => r matches Ok(p) && p.0 == h && p.1@ == b@.skip(8),
            Err(e) => r matches Err(e2) && e2 == e,
        },
{
    if b.len() < 8 {
        return Err(DecodeError::TooShort);
    }
    let h = UdpHeader {
        src_port: crate::bytes::read_be16(b, 0),
        dst_port: crate::bytes::read_be16(b, 2),
        length: crate::bytes::read_be16(b, 4),
        checksum: crate::bytes::read_be16(b, 6),
    };
    let payload = slice_subrange(b, 8, b.len());
    proof {
        assert(payload@ =~= b@.skip(8));
    }
    Ok((h, payload))
}

/// Law: on a frame that decodes as Ethernet, then IPv4, then UDP,
/// re-encoding the extracted MAC addresses, IP addresses and ports gives
/// back exactly the bytes they were read from.
pub proof fn lemma_extracted_fields_reencode(b: Seq<u8>)
    requires
        ethernet_decode(b) is Ok,
        ethernet_decode(b)->Ok_0.ethertype == crate::ETHERTYPE_IPV4,
        ipv4_decode(b.skip(14)) is Ok,
        ipv4_decode(b.skip(14))->Ok_0.protocol == crate::IP_PROTO_UDP,
        udp_decode(b.skip(14).skip(ipv4_decode(b.skip(14))->Ok_0.header_len as int)) is Ok,
    ensures
        ({
            let eh = ethernet_decode(b)->Ok_0;
            let ih = ipv4_decode(b.skip(14))->Ok_0;
            let p = b.skip(14);
            let q = p.skip(ih.header_len as int);
            let uh = udp_decode(q)->Ok_0;
            &&& crate::bytes::mac_bytes(eh.dst_mac) == b.subrange(0, 6)
            &&& crate::bytes::mac_bytes(eh.src_mac) == b.subrange(6, 12)
            &&& crate::bytes::be16_bytes(eh.ethertype) == b.subrange(12, 14)
            &&& crate::bytes::be32_bytes(ih.src_addr) == p.subrange(12, 16)
            &&& crate::bytes::be32_bytes(ih.dst_addr) == p.subrange(16, 20)
            &&& crate::bytes::be16_bytes(uh.src_port) == q.subrange(0, 2)
            &&& crate::bytes::be16_bytes(uh.dst_port) == q.subrange(2, 4)
        }),
{
    let p = b.skip(14);
    let ih = ipv4_decode(p)->Ok_0;
    let q = p.skip(ih.header_len as int);
    crate::bytes::lemma_mac_roundtrip(b[0], b[1], b[2], b[3], b[4], b[5]);
    assert(b.subrange(0, 6) =~= seq![b[0], b[1], b[2], b[3], b[4], b[5]]);
    crate::bytes::lemma_mac_roundtrip(b[6], b[7], b[8], b[9], b[10], b[11]);
    assert(b.subrange(6, 12) =~= seq![b[6], b[7], b[8], b[9], b[10], b[11]]);
    crate::bytes::lemma_be16_roundtrip(b[12], b[13]);
    assert(b.subrange(12, 14) =~= seq![b[12], b[13]]);
    crate::bytes::lemma_be32_roundtrip(p[12], p[13], p[14], p[15]);
    assert(p.subrange(12, 16) =~= seq![p[12], p[13], p[14], p[15]]);
    crate::bytes::lemma_be32_roundtrip(p[16], p[17], p[18], p[19]);
    assert(p.subrange(16, 20) =~= seq![p[16], p[17], p[18], p[19]]);
    crate::bytes::lemma_be16_roundtrip(q[0], q[1]);
    assert(q.subrange(0, 2) =~= seq![q[0], q[1]]);
    crate::bytes::lemma_be16_roundtrip(q[2], q[3]);
    assert(q.subrange(2, 4) =~= seq![q[2], q[3]]);
}

} // verus!
