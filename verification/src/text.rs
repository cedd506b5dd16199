//! Textual rendering of decoded fields: hexadecimal MAC strings, dotted
//! decimal IPv4 strings, grouped IPv6 strings, and protocol labels.
use vstd::prelude::*;
use vstd::string::StringExecFns;

verus! {

/// The character for one hexadecimal digit value.
pub open spec fn digit_char(d: int) -> char {
    if d == 0 {
        '0'
    } else if d == 1 {
        '1'
    } else if d == 2 {
        '2'
    } else if d == 3 {
        '3'
    } else if d == 4 {
        '4'
    } else if d == 5 {
        '5'
    } else if d == 6 {
        '6'
    } else if d == 7 {
        '7'
    } else if d == 8 {
        '8'
    } else if d == 9 {
        '9'
    } else if d == 10 {
        'a'
    } else if d == 11 {
        'b'
    } else if d == 12 {
        'c'
    } else if d == 13 {
        'd'
    } else if d == 14 {
        'e'
    } else {
        'f'
    }
}

/// The single character naming one digit value below 16.
pub fn digit_str(d: u8) -> (r: &'static str)
    requires
        d < 16,
    ensures
        r@ == seq![digit_char(d as int)],
{
    let r = if d == 0 {
        "0"
    } else if d == 1 {
        "1"
    } else if d == 2 {
        "2"
    } else if d == 3 {
        "3"
    } else if d == 4 {
        "4"
    } else if d == 5 {
        "5"
    } else if d == 6 {
        "6"
    } else if d == 7 {
        "7"
    } else if d == 8 {
        "8"
    } else if d == 9 {
        "9"
    } else if d == 10 {
        "a"
    } else if d == 11 {
        "b"
    } else if d == 12 {
        "c"
    } else if d == 13 {
        "d"
    } else if d == 14 {
        "e"
    } else {
        "f"
    };
    proof {
        reveal_strlit("0");
        reveal_strlit("1");
        reveal_strlit("2");
        reveal_strlit("3");
        reveal_strlit("4");
        reveal_strlit("5");
        reveal_strlit("6");
        reveal_strlit("7");
        reveal_strlit("8");
        reveal_strlit("9");
        reveal_strlit("a");
        reveal_strlit("b");
        reveal_strlit("c");
        reveal_strlit("d");
        reveal_strlit("e");
        reveal_strlit("f");
        assert(r@ =~= seq![digit_char(d as int)]);
    }
    r
}

/// The two hexadecimal digits of one byte.
pub open spec fn hex_byte_chars(v: u8) -> Seq<char> {
    seq![digit_char(v as int / 16), digit_char(v as int % 16)]
}

/// Appends the two hexadecimal digits of `v` to `out`.
fn push_hex_byte(out: &mut String, v: u8)
    ensures
        final(out)@ == old(out)@ + hex_byte_chars(v),
{
    out.append(digit_str(v / 16));
    out.append(digit_str(v % 16));
    proof {
        assert(out@ =~= old(out)@ + hex_byte_chars(v));
    }
}

/// The colon-separated hexadecimal spelling of a MAC address, two digits
/// per byte, most significant byte first.
pub open spec fn mac_chars(m: u64) -> Seq<char> {
    hex_byte_chars((m >> 40) as u8) + seq![':'] + hex_byte_chars((m >> 32) as u8) + seq![':']
        + hex_byte_chars((m >> 24) as u8) + seq![':'] + hex_byte_chars((m >> 16) as u8)
        + seq![':'] + hex_byte_chars((m >> 8) as u8) + seq![':'] + hex_byte_chars(m as u8)
}

/// Renders a MAC address as six colon-separated hexadecimal byte pairs.
pub fn mac_string(m: u64) -> (r: String)
    ensures
        r@ == mac_chars(m),
{
    let mut out = String::new();
    push_hex_byte(&mut out, (m >> 40) as u8);
    out.append(":");
    push_hex_byte(&mut out, (m >> 32) as u8);
    out.append(":");
    push_hex_byte(&mut out, (m >> 24) as u8);
    out.append(":");
    push_hex_byte(&mut out, (m >> 16) as u8);
    out.append(":");
    push_hex_byte(&mut out, (m >> 8) as u8);
    out.append(":");
    push_hex_byte(&mut out, m as u8);
    proof {
        reveal_strlit(":");
        assert(out@ =~= mac_chars(m));
    }
    out
}

/// The decimal spelling of one byte, without leading zeros.
pub open spec fn dec_u8_chars(v: u8) -> Seq<char> {
    if v < 10 {
        seq![digit_char(v as int)]
    } else if v < 100 {
        seq![digit_char(v as int / 10), digit_char(v as int % 10)]
    } else {
        seq![
            digit_char(v as int / 100),
            digit_char((v as int / 10) % 10),
            digit_char(v as int % 10),
        ]
    }
}

/// Appends the decimal spelling of `v` to `out`.
fn push_dec_u8(out: &mut String, v: u8)
    ensures
        final(out)@ == old(out)@ + dec_u8_chars(v),
{
    if v >= 100 {
        out.append(digit_str(v / 100));
    }
    if v >= 10 {
        out.append(digit_str((v / 10) % 10));
    }
    out.append(digit_str(v % 10));
    proof {
        assert(out@ =~= old(out)@ + dec_u8_chars(v));
    }
}

/// The dotted decimal spelling of an IPv4 address.
pub open spec fn ipv4_chars(a: u32) -> Seq<char> {
    dec_u8_chars((a >> 24) as u8) + seq!['.'] + dec_u8_chars((a >> 16) as u8) + seq!['.']
        + dec_u8_chars((a >> 8) as u8) + seq!['.'] + dec_u8_chars(a as u8)
}

/// Renders an IPv4 address in dotted decimal form.
pub fn ipv4_string(a: u32) -> (r: String)
    ensures
        r@ == ipv4_chars(a),
{
    let mut out = String::new();
    push_dec_u8(&mut out, (a >> 24) as u8);
    out.append(".");
    push_dec_u8(&mut out, (a >> 16) as u8);
    out.append(".");
    push_dec_u8(&mut out, (a >> 8) as u8);
    out.append(".");
    push_dec_u8(&mut out, a as u8);
    proof {
        reveal_strlit(".");
        assert(out@ =~= ipv4_chars(a));
    }
    out
}

/// The four hexadecimal digits of one 16-bit IPv6 group, zero-padded.
pub open spec fn group_chars(g: u16) -> Seq<char> {
    seq![
        digit_char(g as int / 4096),
        digit_char((g as int / 256) % 16),
        digit_char((g as int / 16) % 16),
        digit_char(g as int % 16),
    ]
}

/// Appends the four hexadecimal digits of one IPv6 group to `out`.
fn push_group(out: &mut String, g: u16)
    ensures
        final(out)@ == old(out)@ + group_chars(g),
{
    out.append(digit_str((g / 4096) as u8));
    out.append(digit_str(((g / 256) % 16) as u8));
    out.append(digit_str(((g / 16) % 16) as u8));
    out.append(digit_str((g % 16) as u8));
    proof {
        assert(out@ =~= old(out)@ + group_chars(g));
    }
}

/// The colon-separated spelling of an IPv6 address as eight zero-padded
/// hexadecimal groups (no zero compression).
pub open spec fn ipv6_chars(hi: u64, lo: u64) -> Seq<char> {
    group_chars((hi >> 48) as u16) + seq![':'] + group_chars((hi >> 32) as u16) + seq![':']
        + group_chars((hi >> 16) as u16) + seq![':'] + group_chars(hi as u16) + seq![':']
        + group_chars((lo >> 48) as u16) + seq![':'] + group_chars((lo >> 32) as u16) + seq![':']
        + group_chars((lo >> 16) as u16) + seq![':'] + group_chars(lo as u16)
}

/// Renders an IPv6 address as eight colon-separated zero-padded groups.
pub fn ipv6_string(hi: u64, lo: u64) -> (r: String)
    ensures
        r@ == ipv6_chars(hi, lo),
{
    let mut out = String::new();
    push_group(&mut out, (hi >> 48) as u16);
    out.append(":");
    push_group(&mut out, (hi >> 32) as u16);
    out.append(":");
    push_group(&mut out, (hi >> 16) as u16);
    out.append(":");
    push_group(&mut out, hi as u16);
    out.append(":");
    push_group(&mut out, (lo >> 48) as u16);
    out.append(":");
    push_group(&mut out, (lo >> 32) as u16);
    out.append(":");
    push_group(&mut out, (lo >> 16) as u16);
    out.append(":");
    push_group(&mut out, lo as u16);
    proof {
        reveal_strlit(":");
        assert(out@ =~= ipv6_chars(hi, lo));
    }
    out
}

/// The display label for an ethertype: the two network layers this walker
/// knows by name, and `Other` for the rest.
pub open spec fn ethertype_label(t: u16) -> Seq<char> {
    if t == crate::ETHERTYPE_IPV4 {
        "IPv4"@
    } else if t == crate::ETHERTYPE_IPV6 {
        "IPv6"@
    } else {
        "Other"@
    }
}

/// Names an ethertype.
pub fn ethertype_name(t: u16) -> (r: &'static str)
    ensures
        r@ == ethertype_label(t),
{
    if t == crate::ETHERTYPE_IPV4 {
        "IPv4"
    } else if t == crate::ETHERTYPE_IPV6 {
        "IPv6"
    } else {
        "Other"
    }
}

/// The display label for an IP next-protocol code: the two transport layers
/// this walker knows by name, and `Other` for the rest.
pub open spec fn protocol_label(p: u8) -> Seq<char> {
    if p == crate::IP_PROTO_TCP {
        "TCP"@
    } else if p == crate::IP_PROTO_UDP {
        "UDP"@
    } else {
        "Other"@
    }
}

/// Names an IP next-protocol code.
pub fn protocol_name(p: u8) -> (r: &'static str)
    ensures
        r@ == protocol_label(p),
{
    if p == crate::IP_PROTO_TCP {
        "TCP"
    } else if p == crate::IP_PROTO_UDP {
        "UDP"
    } else {
        "Other"
    }
}

/// The decimal spelling of an unsigned value, without leading zeros.
pub open spec fn dec_chars(v: u64) -> Seq<char>
    decreases v,
{
    if v < 10 {
        seq![digit_char(v as int)]
    } else {
        dec_chars(v / 10) + seq![digit_char(v as int % 10)]
    }
}

/// Appends the decimal spelling of `v` to `out`.
pub fn push_dec(out: &mut String, v: u64)
    ensures
        final(out)@ == old(out)@ + dec_chars(v),
    decreases v,
{
    if v < 10 {
        out.append(digit_str(v as u8));
    } else {
        push_dec(out, v / 10);
        out.append(digit_str((v % 10) as u8));
    }
    proof {
        assert(out@ =~= old(out)@ + dec_chars(v));
    }
}

/// Renders an unsigned value in decimal.
pub fn dec_string(v: u64) -> (r: String)
    ensures
        r@ == dec_chars(v),
{
    let mut out = String::new();
    push_dec(&mut out, v);
    proof {
        assert(out@ =~= dec_chars(v));
    }
    out
}

} // verus!
