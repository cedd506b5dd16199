//! The filter adapter: turns the salient fields of a decoded frame into a
//! flat key-value record, hands that record to an externally supplied
//! predicate running in an embedded Lua interpreter, and maps the outcome
//! to an accept/reject decision. A predicate error counts as a rejection
//! and never aborts the capture.
use vstd::prelude::*;
use crate::headers::{ethernet_decode, ipv4_decode, udp_decode, Ipv4Header, UdpHeader};
use crate::text::{ethertype_label, ethertype_name, ipv4_chars, ipv4_string, mac_chars,
    mac_string, protocol_label, protocol_name};
use crate::{ETHERTYPE_IPV4, IP_PROTO_UDP};
use vstd::string::StringExecFns;

verus! {

/// One value of a filter record: text for names and addresses, a number
/// for ports.
#[derive(Debug, PartialEq, Eq)]
pub enum FieldValue {
    Text(String),
    Number(u16),
}

/// The flat record handed to the filter predicate. Ethernet fields are
/// always present; the network and transport fields are present exactly
/// when the corresponding header was decoded.
pub struct FilterRecord {
    pub src_mac: String,
    pub dst_mac: String,
    pub ethertype: String,
    pub src_ip: Option<String>,
    pub dst_ip: Option<String>,
    pub protocol: Option<String>,
    pub udp_src_port: Option<u16>,
    pub udp_dst_port: Option<u16>,
}

/// The IPv4 header that contributes to the filter record: present exactly
/// when the frame's ethertype names IPv4 and the Ethernet payload decodes.
pub open spec fn record_ipv4(b: Seq<u8>) -> Option<Ipv4Header> {
    match ethernet_decode(b) {
        Err(_) => None,
        Ok(eh) => if eh.ethertype == ETHERTYPE_IPV4 {
            match ipv4_decode(b.skip(14)) {
                Ok(h) => Some(h),
                Err(_) => None,
            }
        } else {
            None
        },
    }
}

/// The UDP header that contributes to the filter record: present exactly
/// when an IPv4 header is present, names UDP, and its payload decodes.
pub open spec fn record_udp(b: Seq<u8>) -> Option<UdpHeader> {
    match record_ipv4(b) {
        None => None,
        Some(ih) => if ih.protocol == IP_PROTO_UDP {
            match udp_decode(b.skip(14).skip(ih.header_len as int)) {
                Ok(h) => Some(h),
                Err(_) => None,
            }
        } else {
            None
        },
    }
}

/// What a well-built filter record holds for a frame whose Ethernet header
/// decodes: the rendered Ethernet fields, and the network and transport
/// fields exactly where those headers are present.
pub open spec fn record_matches(rec: FilterRecord, b: Seq<u8>) -> bool {
    match ethernet_decode(b) {
        Err(_) => false,
        Ok(eh) => {
            &&& rec.src_mac@ == mac_chars(eh.src_mac)
            &&& rec.dst_mac@ == mac_chars(eh.dst_mac)
            &&& rec.ethertype@ == ethertype_label(eh.ethertype)
            &&& match record_ipv4(b) {
                Some(ih) => {
                    &&& rec.src_ip matches Some(s) && s@ == ipv4_chars(ih.src_addr)
                    &&& rec.dst_ip matches Some(s) && s@ == ipv4_chars(ih.dst_addr)
                    &&& rec.protocol matches Some(s) && s@ == protocol_label(ih.protocol)
                },
                None => {
                    &&& rec.src_ip is None
                    &&& rec.dst_ip is None
                    &&& rec.protocol is None
                },
            }
            &&& match record_udp(b) {
                Some(uh) => {
                    &&& rec.udp_src_port == Some(uh.src_port)
                    &&& rec.udp_dst_port == Some(uh.dst_port)
                },
                None => {
                    &&& rec.udp_src_port is None
                    &&& rec.udp_dst_port is None
                },
            }
        },
    }
}

/// Builds the filter record for a frame. Returns `None` exactly when the
/// frame is too short to carry an Ethernet header.
pub fn build_filter_record(b: &[u8]) -> (r: Option<FilterRecord>)
    ensures
        (r is Some) == (ethernet_decode(b@) is Ok),
        r matches Some(rec) ==> record_matches(rec, b@),
{
    let eth = match crate::headers::decode_ethernet(b) {
        Ok(p) => p,
        Err(_) => {
            return None;
        },
    };
    let (eth_header, eth_payload) = eth;
    let mut rec = FilterRecord {
        src_mac: mac_string(eth_header.src_mac),
        dst_mac: mac_string(eth_header.dst_mac),
        ethertype: String::from_str(ethertype_name(eth_header.ethertype)),
        src_ip: None,
        dst_ip: None,
        protocol: None,
        udp_src_port: None,
        udp_dst_port: None,
    };
    if eth_header.ethertype == ETHERTYPE_IPV4 {
        if let Ok((ip_header, ip_payload)) = crate::headers::decode_ipv4(eth_payload) {
            rec.src_ip = Some(ipv4_string(ip_header.src_addr));
            rec.dst_ip = Some(ipv4_string(ip_header.dst_addr));
            rec.protocol = Some(String::from_str(protocol_name(ip_header.protocol)));
            if ip_header.protocol == IP_PROTO_UDP {
                if let Ok((udp_header, _)) = crate::headers::decode_udp(ip_payload) {
                    rec.udp_src_port = Some(udp_header.src_port);
                    rec.udp_dst_port = Some(udp_header.dst_port);
                }
            }
        }
    }
    Some(rec)
}

/// The record flattened to ordered key-value pairs, the form in which it
/// crosses into the scripting environment: Ethernet fields first, then the
/// network fields, then the ports, each present field under its name.
pub open spec fn record_pairs(rec: FilterRecord) -> Seq<(Seq<char>, FieldValue)> {
    let eth_part = seq![
        ("src_mac"@, FieldValue::Text(rec.src_mac)),
        ("dst_mac"@, FieldValue::Text(rec.dst_mac)),
        ("ethertype"@, FieldValue::Text(rec.ethertype)),
    ];
    let ip_part = match rec.src_ip {
        Some(s) => seq![("src_ip"@, FieldValue::Text(s))],
        None => seq![],
    } + match rec.dst_ip {
        Some(s) => seq![("dst_ip"@, FieldValue::Text(s))],
        None => seq![],
    } + match rec.protocol {
        Some(s) => seq![("protocol"@, FieldValue::Text(s))],
        None => seq![],
    };
    let udp_part = match rec.udp_src_port {
        Some(p) => seq![("udp_src_port"@, FieldValue::Number(p))],
        None => seq![],
    } + match rec.udp_dst_port {
        Some(p) => seq![("udp_dst_port"@, FieldValue::Number(p))],
        None => seq![],
    };
    eth_part + ip_part + udp_part
}

/// Flattens a record into the key-value pairs of [`record_pairs`].
pub fn record_fields(rec: FilterRecord) -> (r: Vec<(String, FieldValue)>)
    ensures
        r@.len() == record_pairs(rec).len(),
        forall|i: int|
            0 <= i < r@.len() ==> (#[trigger] r@[i]).0@ == record_pairs(rec)[i].0 && r@[i].1
                == record_pairs(rec)[i].1,
{
    let FilterRecord {
        src_mac, dst_mac, ethertype, src_ip, dst_ip, protocol, udp_src_port, udp_dst_port } = rec;
    let mut r: Vec<(String, FieldValue)> = Vec::new();
    r.push((String::from_str("src_mac"), FieldValue::Text(src_mac)));
    r.push((String::from_str("dst_mac"), FieldValue::Text(dst_mac)));
    r.push((String::from_str("ethertype"), FieldValue::Text(ethertype)));
    if let Some(s) = src_ip {
        r.push((String::from_str("src_ip"), FieldValue::Text(s)));
    }
    if let Some(s) = dst_ip {
        r.push((String::from_str("dst_ip"), FieldValue::Text(s)));
    }
    if let Some(s) = protocol {
        r.push((String::from_str("protocol"), FieldValue::Text(s)));
    }
    if let Some(p) = udp_src_port {
        r.push((String::from_str("udp_src_port"), FieldValue::Number(p)));
    }
    if let Some(p) = udp_dst_port {
        r.push((String::from_str("udp_dst_port"), FieldValue::Number(p)));
    }
    r
}

/// The embedded Lua interpreter that hosts the filter predicate.
#[verifier::external_type_specification]
#[verifier::external_body]
pub struct ExLua(mlua::Lua);

/// A Lua function value, here always the loaded filter predicate.
#[verifier::external_type_specification]
#[verifier::external_body]
pub struct ExLuaFunction(mlua::Function);

/// The loaded filter predicate together with the interpreter that hosts
/// it. The fields are private and only [`load_filter`] builds a value, so
/// the function can never be paired with a foreign interpreter, nor
/// outlive its own.
pub struct FilterPredicate {
    lua: mlua::Lua,
    function: mlua::Function,
}

/// Relies on mlua::Lua::new, mlua::Lua::load with mlua::Chunk::exec, and
/// mlua::Table::get on the globals: a fresh interpreter runs the script
/// once, and the global function of the given name becomes the predicate,
/// held together with that interpreter. `None` when the script does not
/// run or leaves no function under the name. What the predicate will
/// answer depends on the script, so nothing is promised.
#[verifier::external_body]
pub fn load_filter(script: &str, name: &str) -> Option<FilterPredicate> {
    let lua = mlua::Lua::new();
    if lua.load(script).exec().is_err() {
        return None;
    }
    match lua.globals().get::<mlua::Function>(name) {
        Ok(function) => Some(FilterPredicate { lua, function }),
        Err(_) => None,
    }
}

/// Relies on mlua::Lua::create_table, mlua::Table::set and
/// mlua::Function::call: the record's pairs become a Lua table of the
/// predicate's own interpreter and the predicate is called on it once, its
/// result read back with Lua's notion of truth. The interpreter and the
/// function arrive as one [`FilterPredicate`], so the call cannot cross
/// interpreters. The outcome depends on the script, so nothing is promised
/// of it; `None` stands for any error the scripting environment raised.
#[verifier::external_body]
fn call_predicate_raw(p: &FilterPredicate, fields: &Vec<(String, FieldValue)>) -> Option<bool> {
    let t = match p.lua.create_table() {
        Ok(t) => t,
        Err(_) => return None,
    };
    for (k, v) in fields.iter() {
        let set_result = match v {
            FieldValue::Text(s) => t.set(k.as_str(), s.as_str()),
            FieldValue::Number(n) => t.set(k.as_str(), *n),
        };
        if set_result.is_err() {
            return None;
        }
    }
    p.function.call::<bool>(t).ok()
}

/// Maps a predicate outcome to the loop's decision: only a clean `true`
/// accepts the frame; `false`, and every failure of the scripting
/// environment, rejects it.
pub fn accept_decision(outcome: Option<bool>) -> (r: bool)
    ensures
        r == (outcome == Some(true)),
{
    match outcome {
        Some(true) => true,
        _ => false,
    }
}

/// Builds the filter record for a frame and asks the predicate about it.
/// A frame with no Ethernet header is rejected outright; otherwise the
/// decision is the predicate's, with every scripting failure counting as a
/// rejection. What the predicate answers depends on the loaded script, so
/// only the rejection of undecodable frames is promised.
pub fn evaluate_filter(predicate: &FilterPredicate, b: &[u8]) -> (accept: bool)
    ensures
        ethernet_decode(b@) is Err ==> !accept,
{
    let rec = match build_filter_record(b) {
        Some(rec) => rec,
        None => {
            return false;
        },
    };
    let fields = record_fields(rec);
    accept_decision(call_predicate_raw(predicate, &fields))
}

} // verus!
