//! Big-endian byte-order helpers shared by the NAT-PMP and PCP codecs.

use vstd::prelude::*;

verus! {

/// The two big-endian bytes of a 16-bit value.
pub open spec fn be16(x: u16) -> Seq<u8> {
    seq![(x / 256) as u8, (x % 256) as u8]
}

/// The four big-endian bytes of a 32-bit value.
pub open spec fn be32(x: u32) -> Seq<u8> {
    seq![
        (x / 0x1000000) as u8,
        ((x / 0x10000) % 256) as u8,
        ((x / 256) % 256) as u8,
        (x % 256) as u8,
    ]
}

/// The 16-bit value read big-endian at offset `i`.
pub open spec fn read16(b: Seq<u8>, i: int) -> u16
    recommends 0 <= i, i + 2 <= b.len(),
{
    (b[i] as u16 * 256 + b[i + 1] as u16) as u16
}

/// The 32-bit value read big-endian at offset `i`.
pub open spec fn read32(b: Seq<u8>, i: int) -> u32
    recommends 0 <= i, i + 4 <= b.len(),
{
    (b[i] as u32 * 0x1000000 + b[i + 1] as u32 * 0x10000 + b[i + 2] as u32 * 256 + b[i + 3] as u32) as u32
}

/// Reading back the two bytes of `be16` gives the value again.
pub proof fn lemma_be16_read16(x: u16, b: Seq<u8>, i: int)
    requires
        0 <= i,
        i + 2 <= b.len(),
        b[i] == be16(x)[0],
        b[i + 1] == be16(x)[1],
    ensures
        read16(b, i) == x,
{
    assert(x / 256 < 256) by (nonlinear_arith);
    assert(x == (x / 256) * 256 + x % 256) by (nonlinear_arith);
}

/// Reading back the four bytes of `be32` gives the value again.
pub proof fn lemma_be32_read32(x: u32, b: Seq<u8>, i: int)
    requires
        0 <= i,
        i + 4 <= b.len(),
        b[i] == be32(x)[0],
        b[i + 1] == be32(x)[1],
        b[i + 2] == be32(x)[2],
        b[i + 3] == be32(x)[3],
    ensures
        read32(b, i) == x,
{
    assert(x / 0x1000000 < 256) by (nonlinear_arith);
    assert(x == (x / 0x1000000) * 0x1000000 + ((x / 0x10000) % 256) * 0x10000
        + ((x / 256) % 256) * 256 + x % 256) by (nonlinear_arith);
}

/// Appends the two big-endian bytes of `x`.
pub fn push_u16_be(out: &mut Vec<u8>, x: u16)
    ensures
        final(out)@ == old(out)@ + be16(x),
{
    out.push((x / 256) as u8);
    out.push((x % 256) as u8);
    proof {
        assert(final(out)@ =~= old(out)@ + be16(x));
    }
}

/// Appends the four big-endian bytes of `x`.
pub fn push_u32_be(out: &mut Vec<u8>, x: u32)
    ensures
        final(out)@ == old(out)@ + be32(x),
{
    out.push((x / 0x1000000) as u8);
    out.push(((x / 0x10000) % 256) as u8);
    out.push(((x / 256) % 256) as u8);
    out.push((x % 256) as u8);
    proof {
        assert(final(out)@ =~= old(out)@ + be32(x));
    }
}

/// Reads the 16-bit big-endian value at offset `i`.
pub fn read_u16_be(b: &[u8], i: usize) -> (r: u16)
    requires
        i + 2 <= b@.len(),
    ensures
        r == read16(b@, i as int),
{
    b[i] as u16 * 256 + b[i + 1] as u16
}

/// Reads the 32-bit big-endian value at offset `i`.
pub fn read_u32_be(b: &[u8], i: usize) -> (r: u32)
    requires
        i + 4 <= b@.len(),
    ensures
        r == read32(b@, i as int),
{
    b[i] as u32 * 0x1000000 + b[i + 1] as u32 * 0x10000 + b[i + 2] as u32 * 256 + b[i + 3] as u32
}

} // verus!
