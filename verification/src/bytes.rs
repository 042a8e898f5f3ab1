//! Fixed-width integers as byte strings, in the byte orders that the
//! firmware configuration interface uses.
use vstd::prelude::*;

verus! {

/// Value of two bytes read most significant first.
pub open spec fn be16_value(b0: u8, b1: u8) -> int {
    b0 * 0x100 + b1
}

/// Value of four bytes read most significant first.
pub open spec fn be32_value(s: Seq<u8>) -> int {
    s[0] * 0x100_0000 + s[1] * 0x1_0000 + s[2] * 0x100 + s[3]
}

/// Value of four bytes read least significant first.
pub open spec fn le32_value(s: Seq<u8>) -> int {
    s[3] * 0x100_0000 + s[2] * 0x1_0000 + s[1] * 0x100 + s[0]
}

/// Value of eight bytes read most significant first.
pub open spec fn be64_value(s: Seq<u8>) -> int {
    be32_value(s.take(4)) * 0x1_0000_0000 + be32_value(s.skip(4))
}

/// The four bytes of `v`, most significant first.
pub open spec fn be32_bytes(v: u32) -> Seq<u8> {
    seq![
        (v / 0x100_0000) as u8,
        ((v / 0x1_0000) % 0x100) as u8,
        ((v / 0x100) % 0x100) as u8,
        (v % 0x100) as u8,
    ]
}

/// The eight bytes of `v`, most significant first.
pub open spec fn be64_bytes(v: u64) -> Seq<u8> {
    be32_bytes((v / 0x1_0000_0000) as u32) + be32_bytes((v % 0x1_0000_0000) as u32)
}

/// Writes `v` most significant byte first.
pub fn u32_to_be_bytes(v: u32) -> (r: [u8; 4])
    ensures
        r@ == be32_bytes(v),
{
    let b0 = (v >> 24) as u8;
    let b1 = (v >> 16) as u8;
    let b2 = (v >> 8) as u8;
    let b3 = v as u8;
    assert(b0 == v / 0x100_0000 && b1 == (v / 0x1_0000) % 0x100 && b2 == (v / 0x100) % 0x100 && b3
        == v % 0x100) by (bit_vector)
        requires
            b0 == (v >> 24) as u8,
            b1 == (v >> 16) as u8,
            b2 == (v >> 8) as u8,
            b3 == v as u8,
    ;
    let r = [b0, b1, b2, b3];
    assert(r@ =~= be32_bytes(v));
    r
}

/// Writes `v` most significant byte first.
pub fn u64_to_be_bytes(v: u64) -> (r: [u8; 8])
    ensures
        r@ == be64_bytes(v),
{
    let high = (v >> 32) as u32;
    let low = v as u32;
    assert(high == v / 0x1_0000_0000 && low == v % 0x1_0000_0000) by (bit_vector)
        requires
            high == (v >> 32) as u32,
            low == v as u32,
    ;
    let h = u32_to_be_bytes(high);
    let l = u32_to_be_bytes(low);
    let r = [h[0], h[1], h[2], h[3], l[0], l[1], l[2], l[3]];
    assert(r@ =~= be64_bytes(v));
    r
}

/// Reads two bytes at `at`, most significant first.
pub fn u16_from_be_at(s: &[u8], at: usize) -> (r: u16)
    requires
        at + 2 <= s@.len(),
    ensures
        r == be16_value(s@[at as int], s@[at + 1]),
{
    (s[at] as u16) * 0x100 + (s[at + 1] as u16)
}

/// Reads four bytes at the start of `s`, most significant first.
pub fn u32_from_be_prefix(s: &[u8]) -> (r: u32)
    requires
        4 <= s@.len(),
    ensures
        r == be32_value(s@),
{
    (s[0] as u32) * 0x100_0000 + (s[1] as u32) * 0x1_0000 + (s[2] as u32) * 0x100 + (s[3] as u32)
}

/// Reads four bytes at the start of `s`, least significant first.
pub fn u32_from_le_prefix(s: &[u8]) -> (r: u32)
    requires
        4 <= s@.len(),
    ensures
        r == le32_value(s@),
{
    (s[3] as u32) * 0x100_0000 + (s[2] as u32) * 0x1_0000 + (s[1] as u32) * 0x100 + (s[0] as u32)
}

/// Reading back the bytes of a 32-bit value gives the value.
pub proof fn lemma_be32_roundtrip(v: u32)
    ensures
        be32_value(be32_bytes(v)) == v,
{
    let s = be32_bytes(v);
    assert(s[0] == v / 0x100_0000);
    assert(s[1] == (v / 0x1_0000) % 0x100);
    assert(s[2] == (v / 0x100) % 0x100);
    assert(s[3] == v % 0x100);
    assert((v / 0x100_0000) * 0x100_0000 + ((v / 0x1_0000) % 0x100) * 0x1_0000 + ((v / 0x100)
        % 0x100) * 0x100 + v % 0x100 == v) by (nonlinear_arith);
}

/// Reading back the bytes of a 64-bit value gives the value.
pub proof fn lemma_be64_roundtrip(v: u64)
    ensures
        be64_value(be64_bytes(v)) == v,
{
    let hi = (v / 0x1_0000_0000) as u32;
    let lo = (v % 0x1_0000_0000) as u32;
    lemma_be32_roundtrip(hi);
    lemma_be32_roundtrip(lo);
    let s = be64_bytes(v);
    assert(s.take(4) =~= be32_bytes(hi));
    assert(s.skip(4) =~= be32_bytes(lo));
    assert(hi * 0x1_0000_0000 + lo == v) by (nonlinear_arith)
        requires
            hi == v / 0x1_0000_0000,
            lo == v % 0x1_0000_0000,
    ;
}

} // verus!
