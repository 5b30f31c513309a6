//! Reconstruction of 32-bit measurements from pairs of 16-bit registers.

use vstd::prelude::*;

verus! {

/// The 32-bit value spanned by two consecutive 16-bit registers,
/// high word first: `hi * 2^16 + lo`.
pub open spec fn decode_spec(hi: u16, lo: u16) -> u32 {
    (hi * 0x10000 + lo) as u32
}

/// Combines the two 16-bit words of a register pair, high word first,
/// into one unsigned 32-bit measurement. No sign extension, no scaling.
pub fn decode_u32(hi: u16, lo: u16) -> (r: u32)
    ensures
        r == decode_spec(hi, lo),
        r == hi * 0x10000 + lo,
{
    let r: u32 = ((hi as u32) << 16) | (lo as u32);
    proof {
        assert(((hi as u32) << 16) | (lo as u32) == hi * 0x10000 + lo) by (bit_vector);
    }
    r
}

/// Decoding is exact over the full range of both words: no value is ever
/// truncated, and the all-ones pair reaches the top of the 32-bit range.
pub proof fn lemma_decode_exact(hi: u16, lo: u16)
    ensures
        decode_spec(hi, lo) == hi * 0x10000 + lo,
        decode_spec(0xFFFF, 0xFFFF) == 0xFFFFFFFFu32,
{
    assert(hi * 0x10000 + lo <= 0xFFFF * 0x10000 + 0xFFFF) by (nonlinear_arith);
}

} // verus!
