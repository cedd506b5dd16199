//! The layer walker: composes the header decoders into a strict top-down
//! walk, Ethernet first, then the network layer chosen by the ethertype,
//! then the transport layer chosen by the next-protocol code. A decode
//! failure at any layer ends the walk there without discarding the headers
//! already decoded above it.
use vstd::prelude::*;
use crate::headers::{
    decode_ethernet, decode_ipv4, decode_ipv6, decode_tcp, decode_udp, ethernet_decode,
    ipv4_decode, ipv6_decode, tcp_decode, udp_decode, EthernetHeader, Ipv4Header, Ipv6Header,
    TcpHeader, UdpHeader,
};
use crate::{ETHERTYPE_IPV4, ETHERTYPE_IPV6, IP_PROTO_TCP, IP_PROTO_UDP};

verus! {

/// One decoded layer of a frame.
#[derive(Clone, Copy, Debug, PartialEq, Eq, Structural)]
pub enum DecodedHeader {
    Ethernet(EthernetHeader),
    Ipv4(Ipv4Header),
    Ipv6(Ipv6Header),
    Tcp(TcpHeader),
    Udp(UdpHeader),
}

/// The transport layers decoded from the payload of a network header whose
/// next-protocol code is `proto`: one TCP or UDP header where the code names
/// that protocol and the payload decodes, nothing otherwise.
pub open spec fn walk_transport(proto: u8, p: Seq<u8>) -> Seq<DecodedHeader> {
    if proto == IP_PROTO_TCP {
        match tcp_decode(p) {
            Ok(h) => seq![DecodedHeader::Tcp(h)],
            Err(_) => seq![],
        }
    } else if proto == IP_PROTO_UDP {
        match udp_decode(p) {
            Ok(h) => seq![DecodedHeader::Udp(h)],
            Err(_) => seq![],
        }
    } else {
        seq![]
    }
}

/// The network and transport layers decoded from an Ethernet payload whose
/// ethertype is `ethertype`: nothing for an ethertype other than IPv4 or
/// IPv6, and nothing when the named network header does not decode.
pub open spec fn walk_network(ethertype: u16, p: Seq<u8>) -> Seq<DecodedHeader> {
    if ethertype == ETHERTYPE_IPV4 {
        match ipv4_decode(p) {
            Ok(h) => seq![DecodedHeader::Ipv4(h)] + walk_transport(
                h.protocol,
                p.skip(h.header_len as int),
            ),
            Err(_) => seq![],
        }
    } else if ethertype == ETHERTYPE_IPV6 {
        match ipv6_decode(p) {
            Ok(h) => seq![DecodedHeader::Ipv6(h)] + walk_transport(h.next_header, p.skip(40)),
            Err(_) => seq![],
        }
    } else {
        seq![]
    }
}

/// The ordered list of headers the walker decodes from a raw frame: empty
/// when the frame has no Ethernet header, and otherwise the Ethernet header
/// followed by whatever the payload yields.
pub open spec fn walk_headers(b: Seq<u8>) -> Seq<DecodedHeader> {
    match ethernet_decode(b) {
        Ok(h) => seq![DecodedHeader::Ethernet(h)] + walk_network(h.ethertype, b.skip(14)),
        Err(_) => seq![],
    }
}

/// Walks a raw frame top-down and returns the ordered list of decoded
/// headers: possibly empty, and never more than one header per layer.
pub fn walk_frame(b: &[u8]) -> (layers: Vec<DecodedHeader>)
    ensures
        layers@ == walk_headers(b@),
{
    let mut layers: Vec<DecodedHeader> = Vec::new();
    let eth = match decode_ethernet(b) {
        Ok(p) => p,
        Err(_) => {
            proof {
                assert(layers@ =~= walk_headers(b@));
            }
            return layers;
        },
    };
    let (eth_header, eth_payload) = eth;
    layers.push(DecodedHeader::Ethernet(eth_header));
    if eth_header.ethertype == ETHERTYPE_IPV4 {
        match decode_ipv4(eth_payload) {
            Ok((ip_header, ip_payload)) => {
                layers.push(DecodedHeader::Ipv4(ip_header));
                push_transport(&mut layers, ip_header.protocol, ip_payload);
                proof {
                    assert(layers@ =~= walk_headers(b@));
                }
            },
            Err(_) => {
                proof {
                    assert(layers@ =~= walk_headers(b@));
                }
            },
        }
    } else if eth_header.ethertype == ETHERTYPE_IPV6 {
        match decode_ipv6(eth_payload) {
            Ok((ip_header, ip_payload)) => {
                layers.push(DecodedHeader::Ipv6(ip_header));
                push_transport(&mut layers, ip_header.next_header, ip_payload);
                proof {
                    assert(layers@ =~= walk_headers(b@));
                }
            },
            Err(_) => {
                proof {
                    assert(layers@ =~= walk_headers(b@));
                }
            },
        }
    } else {
        proof {
            assert(layers@ =~= walk_headers(b@));
        }
    }
    layers
}

/// Appends the transport layer, if any, that `walk_transport` names for
/// this next-protocol code and payload.
fn push_transport(layers: &mut Vec<DecodedHeader>, proto: u8, p: &[u8])
    ensures
        final(layers)@ == old(layers)@ + walk_transport(proto, p@),
{
    if proto == IP_PROTO_TCP {
        if let Ok((h, _)) = decode_tcp(p) {
            layers.push(DecodedHeader::Tcp(h));
        }
    } else if proto == IP_PROTO_UDP {
        if let Ok((h, _)) = decode_udp(p) {
            layers.push(DecodedHeader::Udp(h));
        }
    }
    proof {
        assert(layers@ =~= old(layers)@ + walk_transport(proto, p@));
    }
}

/// Law: a buffer shorter than an Ethernet header decodes to `TooShort` and
/// the walker yields no headers at all.
pub proof fn lemma_short_frame_yields_nothing(b: Seq<u8>)
    requires
        b.len() < 14,
    ensures
        ethernet_decode(b) == Err::<EthernetHeader, _>(crate::headers::DecodeError::TooShort),
        walk_headers(b) == Seq::<DecodedHeader>::empty(),
{
    assert(walk_headers(b) =~= Seq::<DecodedHeader>::empty());
}

/// Law: a frame whose ethertype names neither IPv4 nor IPv6 decodes to
/// exactly one header, the Ethernet header itself.
pub proof fn lemma_unknown_ethertype_stops_walk(b: Seq<u8>)
    requires
        ethernet_decode(b) is Ok,
        ethernet_decode(b)->Ok_0.ethertype != ETHERTYPE_IPV4,
        ethernet_decode(b)->Ok_0.ethertype != ETHERTYPE_IPV6,
    ensures
        walk_headers(b).len() == 1,
        walk_headers(b)[0] == DecodedHeader::Ethernet(ethernet_decode(b)->Ok_0),
{
    assert(walk_headers(b) =~= seq![DecodedHeader::Ethernet(ethernet_decode(b)->Ok_0)]);
}

/// Law: the walk is strictly top-down and never backtracks: at most one
/// header per layer, Ethernet first, then a network header, then a
/// transport header.
pub proof fn lemma_walk_is_layered(b: Seq<u8>)
    ensures
        walk_headers(b).len() <= 3,
        walk_headers(b).len() >= 1 ==> walk_headers(b)[0] is Ethernet,
        walk_headers(b).len() >= 2 ==> (walk_headers(b)[1] is Ipv4 || walk_headers(b)[1]
            is Ipv6),
        walk_headers(b).len() >= 3 ==> (walk_headers(b)[2] is Tcp || walk_headers(b)[2] is Udp),
{
}

/// Law: the walk is a function of the frame bytes alone, so any two decoded
/// lists that meet `walk_frame`'s contract on the same bytes are identical.
pub proof fn lemma_walk_deterministic(
    b: Seq<u8>,
    first: Seq<DecodedHeader>,
    second: Seq<DecodedHeader>,
)
    requires
        first == walk_headers(b),
        second == walk_headers(b),
    ensures
        first == second,
{
}

} // verus!
