//! Big- and little-endian integer fields of the wire formats.

use vstd::prelude::*;

verus! {

/// The 16-bit value that two big-endian bytes denote.
pub open spec fn be16(b0: u8, b1: u8) -> u16 {
    (b0 * 256 + b1) as u16
}

/// The 32-bit value that four big-endian bytes denote.
pub open spec fn be32(b0: u8, b1: u8, b2: u8, b3: u8) -> u32 {
    (((b0 * 256 + b1) * 256 + b2) * 256 + b3) as u32
}

/// The 32-bit value that four little-endian bytes denote.
pub open spec fn le32(b0: u8, b1: u8, b2: u8, b3: u8) -> u32 {
    be32(b3, b2, b1, b0)
}

/// Reads a 16-bit big-endian field.
pub fn read_be16(b0: u8, b1: u8) -> (r: u16)
    ensures
        r == be16(b0, b1),
{
    b0 as u16 * 256 + b1 as u16
}

/// Reads a 32-bit big-endian field.
pub fn read_be32(b0: u8, b1: u8, b2: u8, b3: u8) -> (r: u32)
    ensures
        r == be32(b0, b1, b2, b3),
{
    ((b0 as u32 * 256 + b1 as u32) * 256 + b2 as u32) * 256 + b3 as u32
}

/// The big-endian bytes of a 16-bit value, most significant first.
pub open spec fn be16_bytes(x: u16) -> Seq<u8> {
    seq![(x / 256) as u8, (x % 256) as u8]
}

/// The big-endian bytes of a 32-bit value, most significant first.
pub open spec fn be32_bytes(x: u32) -> Seq<u8> {
    seq![
        (x / 0x1000000) as u8,
        ((x / 0x10000) % 256) as u8,
        ((x / 256) % 256) as u8,
        (x % 256) as u8,
    ]
}

/// The little-endian bytes of a 32-bit value, least significant first.
pub open spec fn le32_bytes(x: u32) -> Seq<u8> {
    be32_bytes(x).reverse()
}

/// Appends the two big-endian bytes of `x` to `out`.
pub fn push_be16(out: &mut Vec<u8>, x: u16)
    ensures
        final(out)@ == old(out)@ + be16_bytes(x),
{
    out.push((x / 256) as u8);
    out.push((x % 256) as u8);
    assert(final(out)@ =~= old(out)@ + be16_bytes(x));
}

/// Appends the four big-endian bytes of `x` to `out`.
pub fn push_be32(out: &mut Vec<u8>, x: u32)
    ensures
        final(out)@ == old(out)@ + be32_bytes(x),
{
    out.push((x / 0x1000000) as u8);
    out.push(((x / 0x10000) % 256) as u8);
    out.push(((x / 256) % 256) as u8);
    out.push((x % 256) as u8);
    assert(final(out)@ =~= old(out)@ + be32_bytes(x));
}

/// Appends the four little-endian bytes of `x` to `out`.
pub fn push_le32(out: &mut Vec<u8>, x: u32)
    ensures
        final(out)@ == old(out)@ + le32_bytes(x),
{
    out.push((x % 256) as u8);
    out.push(((x / 256) % 256) as u8);
    out.push(((x / 0x10000) % 256) as u8);
    out.push((x / 0x1000000) as u8);
    assert(le32_bytes(x) =~= seq![
        (x % 256) as u8,
        ((x / 256) % 256) as u8,
        ((x / 0x10000) % 256) as u8,
        (x / 0x1000000) as u8,
    ]);
    assert(final(out)@ =~= old(out)@ + le32_bytes(x));
}

/// Parsing a big-endian 16-bit field recovers the value that was written.
pub proof fn lemma_be16_roundtrip(x: u16)
    ensures
        be16(be16_bytes(x)[0], be16_bytes(x)[1]) == x,
{
}

/// Parsing a big-endian 32-bit field recovers the value that was written.
pub proof fn lemma_be32_roundtrip(x: u32)
    ensures
        be32(be32_bytes(x)[0], be32_bytes(x)[1], be32_bytes(x)[2], be32_bytes(x)[3]) == x,
{
}

} // verus!
