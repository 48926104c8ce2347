//! Byte-level facts shared by the registers, the bus and the CPU.
use vstd::prelude::*;

verus! {

/// The 16-bit word whose high byte is `hi` and low byte is `lo`.
pub open spec fn word(hi: u8, lo: u8) -> int {
    hi as int * 256 + lo as int
}

/// Joining two bytes with a shift and an `or` is `word`.
pub proof fn lemma_join_bytes(hi: u8, lo: u8)
    ensures
        ((hi as u16) << 8u16) | (lo as u16) == word(hi, lo),
{
    assert(((hi as u16) << 8u16) | (lo as u16) == (hi as u16) * 256 + (lo as u16)) by (bit_vector);
}

/// Splitting a word with a shift and a mask gives its two bytes.
pub proof fn lemma_split_word(v: u16)
    ensures
        (v >> 8u16) as u8 == v / 256,
        (v & 0xffu16) as u8 == v % 256,
        v == word((v >> 8u16) as u8, (v & 0xffu16) as u8),
{
    assert((v >> 8u16) as u8 == v / 256) by (bit_vector);
    assert((v & 0xffu16) as u8 == v % 256) by (bit_vector);
}

/// A mask of low bits is a remainder.
pub proof fn lemma_low_mask(v: u16)
    ensures
        v & 0x3fffu16 == v % 0x4000,
        v & 0x07ffu16 == v % 0x0800,
        v & 0x0007u16 == v % 8,
        v & 0x00ffu16 == v % 256,
        v & 0xff00u16 == v - v % 256,
{
    assert(v & 0x3fffu16 == v % 0x4000) by (bit_vector);
    assert(v & 0x07ffu16 == v % 0x0800) by (bit_vector);
    assert(v & 0x0007u16 == v % 8) by (bit_vector);
    assert(v & 0x00ffu16 == v % 256) by (bit_vector);
    assert(v & 0xff00u16 == v - v % 256) by (bit_vector);
}

/// Whether any bit of `mask` is set in `b`.
pub open spec fn has(b: u8, mask: u8) -> bool {
    b & mask != 0
}

/// `b` with the bits of `mask` set when `on` holds, cleared otherwise.
pub open spec fn with_bits(b: u8, mask: u8, on: bool) -> u8 {
    if on {
        b | mask
    } else {
        b & !mask
    }
}

/// Whether `m` has exactly one bit set.
pub open spec fn single_bit(m: u8) -> bool {
    m == 1 || m == 2 || m == 4 || m == 8 || m == 16 || m == 32 || m == 64 || m == 128
}

/// Setting or clearing one bit decides that bit and leaves the others.
pub proof fn lemma_with_bits(b: u8, m: u8, on: bool, q: u8)
    requires
        single_bit(m),
        single_bit(q),
    ensures
        has(with_bits(b, m, on), q) == if m == q { on } else { has(b, q) },
{
    if on {
        assert(((b | m) & q != 0) == if m == q { true } else { b & q != 0 }) by (bit_vector)
            requires
                m == 1 || m == 2 || m == 4 || m == 8 || m == 16 || m == 32 || m == 64 || m == 128,
                q == 1 || q == 2 || q == 4 || q == 8 || q == 16 || q == 32 || q == 64 || q == 128,
        ;
    } else {
        assert(((b & !m) & q != 0) == if m == q { false } else { b & q != 0 }) by (bit_vector)
            requires
                m == 1 || m == 2 || m == 4 || m == 8 || m == 16 || m == 32 || m == 64 || m == 128,
                q == 1 || q == 2 || q == 4 || q == 8 || q == 16 || q == 32 || q == 64 || q == 128,
        ;
    }
}

/// The top bit of a byte is its sign.
pub proof fn lemma_top_bit(b: u8)
    ensures
        has(b, 0x80) == (b >= 128),
        has(b, 0x40) == (b % 128 >= 64),
        has(b, 0x01) == (b % 2 == 1),
{
    assert((b & 0x80 != 0) == (b >= 128)) by (bit_vector);
    assert((b & 0x40 != 0) == (b % 128 >= 64)) by (bit_vector);
    assert((b & 0x01 != 0) == (b % 2 == 1)) by (bit_vector);
}

} // verus!
