//! The summary emitter: renders decoded headers as display text, one block
//! per layer, and a compact one-line form for summary mode.
use vstd::prelude::*;
use vstd::string::StringExecFns;
use crate::headers::{EthernetHeader, Ipv4Header, Ipv6Header, TcpHeader, UdpHeader};
use crate::text::{dec_chars, ethertype_label, ethertype_name, ipv4_chars, ipv4_string,
    ipv6_chars, ipv6_string, mac_chars, mac_string, protocol_label, protocol_name, push_dec};
use crate::walk::DecodedHeader;

verus! {

/// The display block for an Ethernet header.
pub open spec fn ethernet_desc(h: EthernetHeader) -> Seq<char> {
    "Ethernet Packet:\n  Source MAC: "@ + mac_chars(h.src_mac) + "\n  Destination MAC: "@
        + mac_chars(h.dst_mac) + "\n  EtherType: "@ + ethertype_label(h.ethertype) + "\n"@
}

/// Renders an Ethernet header for display.
pub fn describe_ethernet(h: &EthernetHeader) -> (r: String)
    ensures
        r@ == ethernet_desc(*h),
{
    let mut out = String::new();
    out.append("Ethernet Packet:\n  Source MAC: ");
    out.append(mac_string(h.src_mac).as_str());
    out.append("\n  Destination MAC: ");
    out.append(mac_string(h.dst_mac).as_str());
    out.append("\n  EtherType: ");
    out.append(ethertype_name(h.ethertype));
    out.append("\n");
    proof {
        assert(out@ =~= ethernet_desc(*h));
    }
    out
}

/// The display block for an IPv4 header.
pub open spec fn ipv4_desc(h: Ipv4Header) -> Seq<char> {
    "IPv4 Packet:\n  Source IP: "@ + ipv4_chars(h.src_addr) + "\n  Destination IP: "@
        + ipv4_chars(h.dst_addr) + "\n  Protocol: "@ + protocol_label(h.protocol) + "\n"@
}

/// Renders an IPv4 header for display.
pub fn describe_ipv4(h: &Ipv4Header) -> (r: String)
    ensures
        r@ == ipv4_desc(*h),
{
    let mut out = String::new();
    out.append("IPv4 Packet:\n  Source IP: ");
    out.append(ipv4_string(h.src_addr).as_str());
    out.append("\n  Destination IP: ");
    out.append(ipv4_string(h.dst_addr).as_str());
    out.append("\n  Protocol: ");
    out.append(protocol_name(h.protocol));
    out.append("\n");
    proof {
        assert(out@ =~= ipv4_desc(*h));
    }
    out
}

/// The display block for an IPv6 header.
pub open spec fn ipv6_desc(h: Ipv6Header) -> Seq<char> {
    "IPv6 Packet:\n  Source IP: "@ + ipv6_chars(h.src_hi, h.src_lo) + "\n  Destination IP: "@
        + ipv6_chars(h.dst_hi, h.dst_lo) + "\n  Protocol: "@ + protocol_label(h.next_header)
        + "\n"@
}

/// Renders an IPv6 header for display.
pub fn describe_ipv6(h: &Ipv6Header) -> (r: String)
    ensures
        r@ == ipv6_desc(*h),
{
    let mut out = String::new();
    out.append("IPv6 Packet:\n  Source IP: ");
    out.append(ipv6_string(h.src_hi, h.src_lo).as_str());
    out.append("\n  Destination IP: ");
    out.append(ipv6_string(h.dst_hi, h.dst_lo).as_str());
    out.append("\n  Protocol: ");
    out.append(protocol_name(h.next_header));
    out.append("\n");
    proof {
        assert(out@ =~= ipv6_desc(*h));
    }
    out
}

/// The display block for a TCP header.
pub open spec fn tcp_desc(h: TcpHeader) -> Seq<char> {
    "TCP Packet:\n  Source Port: "@ + dec_chars(h.src_port as u64) + "\n  Destination Port: "@
        + dec_chars(h.dst_port as u64) + "\n  Sequence Number: "@ + dec_chars(h.seq_no as u64)
        + "\n  Acknowledgment Number: "@ + dec_chars(h.ack_no as u64) + "\n  Flags: "@
        + dec_chars(h.flags as u64) + "\n"@
}

/// Renders a TCP header for display.
pub fn describe_tcp(h: &TcpHeader) -> (r: String)
    ensures
        r@ == tcp_desc(*h),
{
    let mut out = String::new();
    out.append("TCP Packet:\n  Source Port: ");
    push_dec(&mut out, h.src_port as u64);
    out.append("\n  Destination Port: ");
    push_dec(&mut out, h.dst_port as u64);
    out.append("\n  Sequence Number: ");
    push_dec(&mut out, h.seq_no as u64);
    out.append("\n  Acknowledgment Number: ");
    push_dec(&mut out, h.ack_no as u64);
    out.append("\n  Flags: ");
    push_dec(&mut out, h.flags as u64);
    out.append("\n");
    proof {
        assert(out@ =~= tcp_desc(*h));
    }
    out
}

/// The display block for a UDP header.
pub open spec fn udp_desc(h: UdpHeader) -> Seq<char> {
    "UDP Packet:\n  Source Port: "@ + dec_chars(h.src_port as u64) + "\n  Destination Port: "@
        + dec_chars(h.dst_port as u64) + "\n  Length: "@ + dec_chars(h.length as u64)
        + "\n  Checksum: "@ + dec_chars(h.checksum as u64) + "\n"@
}

/// Renders a UDP header for display.
pub fn describe_udp(h: &UdpHeader) -> (r: String)
    ensures
        r@ == udp_desc(*h),
{
    let mut out = String::new();
    out.append("UDP Packet:\n  Source Port: ");
    push_dec(&mut out, h.src_port as u64);
    out.append("\n  Destination Port: ");
    push_dec(&mut out, h.dst_port as u64);
    out.append("\n  Length: ");
    push_dec(&mut out, h.length as u64);
    out.append("\n  Checksum: ");
    push_dec(&mut out, h.checksum as u64);
    out.append("\n");
    proof {
        assert(out@ =~= udp_desc(*h));
    }
    out
}

/// The display block for any one decoded layer.
pub open spec fn header_desc(h: DecodedHeader) -> Seq<char> {
    match h {
        DecodedHeader::Ethernet(e) => ethernet_desc(e),
        DecodedHeader::Ipv4(i) => ipv4_desc(i),
        DecodedHeader::Ipv6(i) => ipv6_desc(i),
        DecodedHeader::Tcp(t) => tcp_desc(t),
        DecodedHeader::Udp(u) => udp_desc(u),
    }
}

/// Renders one decoded layer for display.
pub fn describe_header(h: &DecodedHeader) -> (r: String)
    ensures
        r@ == header_desc(*h),
{
    match h {
        DecodedHeader::Ethernet(e) => describe_ethernet(e),
        DecodedHeader::Ipv4(i) => describe_ipv4(i),
        DecodedHeader::Ipv6(i) => describe_ipv6(i),
        DecodedHeader::Tcp(t) => describe_tcp(t),
        DecodedHeader::Udp(u) => describe_udp(u),
    }
}

/// The display text for a whole decoded-header list, top layer first.
pub open spec fn headers_desc(hs: Seq<DecodedHeader>) -> Seq<char>
    decreases hs.len(),
{
    if hs.len() == 0 {
        Seq::empty()
    } else {
        header_desc(hs[0]) + headers_desc(hs.skip(1))
    }
}

/// Renders the layers from position `i` on, in order.
fn describe_from(layers: &Vec<DecodedHeader>, i: usize) -> (r: String)
    requires
        i <= layers@.len(),
    ensures
        r@ == headers_desc(layers@.skip(i as int)),
    decreases layers@.len() - i,
{
    if i == layers.len() {
        let r = String::new();
        proof {
            assert(r@ =~= headers_desc(layers@.skip(i as int)));
        }
        r
    } else {
        let mut out = describe_header(&layers[i]);
        let rest = describe_from(layers, i + 1);
        out.append(rest.as_str());
        proof {
            assert(layers@.skip(i as int).skip(1) =~= layers@.skip(i as int + 1));
            assert(out@ =~= headers_desc(layers@.skip(i as int)));
        }
        out
    }
}

/// Renders a whole decoded-header list for display, top layer first.
pub fn describe_headers(layers: &Vec<DecodedHeader>) -> (r: String)
    ensures
        r@ == headers_desc(layers@),
{
    let r = describe_from(layers, 0);
    proof {
        assert(layers@.skip(0) =~= layers@);
    }
    r
}

/// The compact one-line record for summary mode: both MAC addresses and
/// the ethertype label.
pub open spec fn eth_summary(h: EthernetHeader) -> Seq<char> {
    mac_chars(h.src_mac) + " -> "@ + mac_chars(h.dst_mac) + " ["@ + ethertype_label(h.ethertype)
        + "]"@
}

/// Renders the compact one-line summary of a frame's Ethernet header.
pub fn summary_line(h: &EthernetHeader) -> (r: String)
    ensures
        r@ == eth_summary(*h),
{
    let mut out = mac_string(h.src_mac);
    out.append(" -> ");
    out.append(mac_string(h.dst_mac).as_str());
    out.append(" [");
    out.append(ethertype_name(h.ethertype));
    out.append("]");
    proof {
        assert(out@ =~= eth_summary(*h));
    }
    out
}

} // verus!
