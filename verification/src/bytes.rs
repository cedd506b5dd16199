//! Big-endian field arithmetic: reading multi-byte integers out of a byte
//! sequence and writing them back, with round-trip lemmas.
use vstd::prelude::*;

verus! {

/// The 16-bit big-endian value formed by two bytes.
pub open spec fn be16_of(b0: u8, b1: u8) -> u16 {
    ((b0 as u16) << 8) | (b1 as u16)
}

/// The 32-bit big-endian value formed by four bytes.
pub open spec fn be32_of(b0: u8, b1: u8, b2: u8, b3: u8) -> u32 {
    ((b0 as u32) << 24) | ((b1 as u32) << 16) | ((b2 as u32) << 8) | (b3 as u32)
}

/// The 64-bit big-endian value formed by eight bytes.
pub open spec fn be64_of(b0: u8, b1: u8, b2: u8, b3: u8, b4: u8, b5: u8, b6: u8, b7: u8) -> u64 {
    ((b0 as u64) << 56) | ((b1 as u64) << 48) | ((b2 as u64) << 40) | ((b3 as u64) << 32)
        | ((b4 as u64) << 24) | ((b5 as u64) << 16) | ((b6 as u64) << 8) | (b7 as u64)
}

/// A 48-bit MAC address formed by six bytes, most significant first.
pub open spec fn mac_of(b0: u8, b1: u8, b2: u8, b3: u8, b4: u8, b5: u8) -> u64 {
    ((b0 as u64) << 40) | ((b1 as u64) << 32) | ((b2 as u64) << 24) | ((b3 as u64) << 16)
        | ((b4 as u64) << 8) | (b5 as u64)
}

/// The 16-bit big-endian value stored at positions `i` and `i + 1` of `b`.
pub open spec fn be16_at(b: Seq<u8>, i: int) -> u16 {
    be16_of(b[i], b[i + 1])
}

/// The 32-bit big-endian value stored at positions `i` .. `i + 4` of `b`.
pub open spec fn be32_at(b: Seq<u8>, i: int) -> u32 {
    be32_of(b[i], b[i + 1], b[i + 2], b[i + 3])
}

/// The 64-bit big-endian value stored at positions `i` .. `i + 8` of `b`.
pub open spec fn be64_at(b: Seq<u8>, i: int) -> u64 {
    be64_of(b[i], b[i + 1], b[i + 2], b[i + 3], b[i + 4], b[i + 5], b[i + 6], b[i + 7])
}

/// The MAC address stored at positions `i` .. `i + 6` of `b`.
pub open spec fn mac_at(b: Seq<u8>, i: int) -> u64 {
    mac_of(b[i], b[i + 1], b[i + 2], b[i + 3], b[i + 4], b[i + 5])
}

/// The two big-endian bytes of a 16-bit value.
pub open spec fn be16_bytes(v: u16) -> Seq<u8> {
    seq![(v >> 8) as u8, v as u8]
}

/// The four big-endian bytes of a 32-bit value.
pub open spec fn be32_bytes(v: u32) -> Seq<u8> {
    seq![(v >> 24) as u8, (v >> 16) as u8, (v >> 8) as u8, v as u8]
}

/// The six bytes of a 48-bit MAC address, most significant first.
pub open spec fn mac_bytes(m: u64) -> Seq<u8> {
    seq![(m >> 40) as u8, (m >> 32) as u8, (m >> 24) as u8, (m >> 16) as u8, (m >> 8) as u8,
        m as u8]
}

/// Reads the 16-bit big-endian value at offset `i`.
pub fn read_be16(b: &[u8], i: usize) -> (r: u16)
    requires
        i + 1 < b@.len(),
    ensures
        r == be16_at(b@, i as int),
{
    ((b[i] as u16) << 8) | (b[i + 1] as u16)
}

/// Reads the 32-bit big-endian value at offset `i`.
pub fn read_be32(b: &[u8], i: usize) -> (r: u32)
    requires
        i + 3 < b@.len(),
    ensures
        r == be32_at(b@, i as int),
{
    ((b[i] as u32) << 24) | ((b[i + 1] as u32) << 16) | ((b[i + 2] as u32) << 8)
        | (b[i + 3] as u32)
}

/// Reads the 64-bit big-endian value at offset `i`.
pub fn read_be64(b: &[u8], i: usize) -> (r: u64)
    requires
        i + 7 < b@.len(),
    ensures
        r == be64_at(b@, i as int),
{
    ((b[i] as u64) << 56) | ((b[i + 1] as u64) << 48) | ((b[i + 2] as u64) << 40)
        | ((b[i + 3] as u64) << 32) | ((b[i + 4] as u64) << 24) | ((b[i + 5] as u64) << 16)
        | ((b[i + 6] as u64) << 8) | (b[i + 7] as u64)
}

/// Reads the 48-bit MAC address at offset `i`.
pub fn read_mac(b: &[u8], i: usize) -> (r: u64)
    requires
        i + 5 < b@.len(),
    ensures
        r == mac_at(b@, i as int),
{
    ((b[i] as u64) << 40) | ((b[i + 1] as u64) << 32) | ((b[i + 2] as u64) << 24)
        | ((b[i + 3] as u64) << 16) | ((b[i + 4] as u64) << 8) | (b[i + 5] as u64)
}

/// Writes a 16-bit value back as its two big-endian bytes.
pub fn encode_be16(v: u16) -> (r: Vec<u8>)
    ensures
        r@ == be16_bytes(v),
{
    let mut r: Vec<u8> = Vec::new();
    r.push((v >> 8) as u8);
    r.push(v as u8);
    proof {
        assert(r@ =~= be16_bytes(v));
    }
    r
}

/// Writes a 32-bit value back as its four big-endian bytes.
pub fn encode_be32(v: u32) -> (r: Vec<u8>)
    ensures
        r@ == be32_bytes(v),
{
    let mut r: Vec<u8> = Vec::new();
    r.push((v >> 24) as u8);
    r.push((v >> 16) as u8);
    r.push((v >> 8) as u8);
    r.push(v as u8);
    proof {
        assert(r@ =~= be32_bytes(v));
    }
    r
}

/// Writes a MAC address back as its six bytes, most significant first.
pub fn encode_mac(m: u64) -> (r: Vec<u8>)
    ensures
        r@ == mac_bytes(m),
{
    let mut r: Vec<u8> = Vec::new();
    r.push((m >> 40) as u8);
    r.push((m >> 32) as u8);
    r.push((m >> 24) as u8);
    r.push((m >> 16) as u8);
    r.push((m >> 8) as u8);
    r.push(m as u8);
    proof {
        assert(r@ =~= mac_bytes(m));
    }
    r
}

/// Law: re-encoding the 16-bit value read from two bytes gives back those bytes.
pub proof fn lemma_be16_roundtrip(b0: u8, b1: u8)
    ensures
        be16_bytes(be16_of(b0, b1)) == seq![b0, b1],
{
    assert((be16_of(b0, b1) >> 8) as u8 == b0 && be16_of(b0, b1) as u8 == b1) by (bit_vector);
    assert(be16_bytes(be16_of(b0, b1)) =~= seq![b0, b1]);
}

/// Law: re-encoding the 32-bit value read from four bytes gives back those bytes.
pub proof fn lemma_be32_roundtrip(b0: u8, b1: u8, b2: u8, b3: u8)
    ensures
        be32_bytes(be32_of(b0, b1, b2, b3)) == seq![b0, b1, b2, b3],
{
    assert((be32_of(b0, b1, b2, b3) >> 24) as u8 == b0 && (be32_of(b0, b1, b2, b3) >> 16) as u8
        == b1 && (be32_of(b0, b1, b2, b3) >> 8) as u8 == b2 && be32_of(b0, b1, b2, b3) as u8
        == b3) by (bit_vector);
    assert(be32_bytes(be32_of(b0, b1, b2, b3)) =~= seq![b0, b1, b2, b3]);
}

/// Law: re-encoding the MAC address read from six bytes gives back those bytes.
pub proof fn lemma_mac_roundtrip(b0: u8, b1: u8, b2: u8, b3: u8, b4: u8, b5: u8)
    ensures
        mac_bytes(mac_of(b0, b1, b2, b3, b4, b5)) == seq![b0, b1, b2, b3, b4, b5],
{
    assert((mac_of(b0, b1, b2, b3, b4, b5) >> 40) as u8 == b0 && (mac_of(b0, b1, b2, b3, b4, b5)
        >> 32) as u8 == b1 && (mac_of(b0, b1, b2, b3, b4, b5) >> 24) as u8 == b2 && (mac_of(
        b0,
        b1,
        b2,
        b3,
        b4,
        b5,
    ) >> 16) as u8 == b3 && (mac_of(b0, b1, b2, b3, b4, b5) >> 8) as u8 == b4 && mac_of(
        b0,
        b1,
        b2,
        b3,
        b4,
        b5,
    ) as u8 == b5) by (bit_vector);
    assert(mac_bytes(mac_of(b0, b1, b2, b3, b4, b5)) =~= seq![b0, b1, b2, b3, b4, b5]);
}

} // verus!
