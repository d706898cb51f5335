//! Big-endian integer encoding used on the wire.
use vstd::prelude::*;

verus! {

/// The two bytes of `x`, high byte first.
pub open spec fn be16(x: u16) -> Seq<u8> {
    seq![(x / 256) as u8, (x % 256) as u8]
}

/// The four bytes of `x`, high byte first.
pub open spec fn be32(x: u32) -> Seq<u8> {
    seq![
        (x / 0x100_0000) as u8,
        ((x / 0x1_0000) % 256) as u8,
        ((x / 256) % 256) as u8,
        (x % 256) as u8,
    ]
}

/// The number that the bytes `hi`, `lo` stand for, high byte first.
pub open spec fn from_be16(hi: u8, lo: u8) -> u16 {
    (hi * 256 + lo) as u16
}

/// The number that four bytes stand for, high byte first.
pub open spec fn from_be32(b0: u8, b1: u8, b2: u8, b3: u8) -> u32 {
    (b0 * 0x100_0000 + b1 * 0x1_0000 + b2 * 256 + b3) as u32
}

/// Encodes `x` high byte first.
pub fn u16_to_be(x: u16) -> (r: [u8; 2])
    ensures
        r@ == be16(x),
{
    let r = [(x / 256) as u8, (x % 256) as u8];
    assert(r@ =~= be16(x));
    r
}

/// Encodes `x` high byte first.
pub fn u32_to_be(x: u32) -> (r: [u8; 4])
    ensures
        r@ == be32(x),
{
    let r = [
        (x / 0x100_0000) as u8,
        ((x / 0x1_0000) % 256) as u8,
        ((x / 256) % 256) as u8,
        (x % 256) as u8,
    ];
    assert(r@ =~= be32(x));
    r
}

/// Decodes two bytes, high byte first.
pub fn u16_from_be(hi: u8, lo: u8) -> (r: u16)
    ensures
        r == from_be16(hi, lo),
{
    (hi as u16) * 256 + (lo as u16)
}

/// Decodes four bytes, high byte first.
pub fn u32_from_be(b0: u8, b1: u8, b2: u8, b3: u8) -> (r: u32)
    ensures
        r == from_be32(b0, b1, b2, b3),
{
    (b0 as u32) * 0x100_0000 + (b1 as u32) * 0x1_0000 + (b2 as u32) * 256 + (b3 as u32)
}

/// Decoding the encoding of a 16-bit number gives the number back.
pub proof fn lemma_be16_roundtrip(x: u16)
    ensures
        from_be16(be16(x)[0], be16(x)[1]) == x,
{
}

/// Decoding the encoding of a 32-bit number gives the number back.
pub proof fn lemma_be32_roundtrip(x: u32)
    ensures
        from_be32(be32(x)[0], be32(x)[1], be32(x)[2], be32(x)[3]) == x,
{
}

/// Big-endian order: the first of the two bytes of `x` counts 256 times,
/// the second once.
pub proof fn lemma_be16_value(x: u16, hi: u8, lo: u8)
    ensures
        be16(x).len() == 2,
        be16(x)[0] * 256 + be16(x)[1] == x,
        from_be16(hi, lo) == hi * 256 + lo,
{
}

/// Big-endian order: of the four bytes of `x` the first counts 2^24 times,
/// the second 2^16, the third 256 times, the last once.
pub proof fn lemma_be32_value(x: u32, b0: u8, b1: u8, b2: u8, b3: u8)
    ensures
        be32(x).len() == 4,
        be32(x)[0] * 0x100_0000 + be32(x)[1] * 0x1_0000 + be32(x)[2] * 256 + be32(x)[3] == x,
        from_be32(b0, b1, b2, b3) == b0 * 0x100_0000 + b1 * 0x1_0000 + b2 * 256 + b3,
{
    assert(b0 * 0x100_0000 + b1 * 0x1_0000 + b2 * 256 + b3 <= 0xFFFF_FFFF) by (nonlinear_arith)
        requires
            b0 <= 255,
            b1 <= 255,
            b2 <= 255,
            b3 <= 255,
    ;
}

} // verus!
