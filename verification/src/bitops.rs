//! Small shared facts about bitwise operations on the machine's word sizes.

use vstd::prelude::*;

verus! {

/// Masking can only keep bits of the mask.
pub proof fn lemma_and_bound_u8(x: u8, m: u8)
    ensures
        x & m <= m,
{
    assert(x & m <= m) by (bit_vector);
}


/// Masking can only keep bits of the mask.
pub proof fn lemma_and_bound_usize(x: usize, m: usize)
    ensures
        x & m <= m,
{
    assert(x & m <= m) by (bit_vector);
}

/// Masking with a low-bits mask is reduction modulo the next power of
/// two.
pub proof fn lemma_mask_mod_usize(x: usize)
    ensures
        x & 0x1F == x % 32,
        x & 0xFF == x % 256,
{
    assert(x & 0x1F == x % 32 && x & 0xFF == x % 256) by (bit_vector);
}


/// A byte masked to its high nibble is a multiple of 16.
pub proof fn lemma_high_nibble_mult16(x: u8)
    ensures
        (x & 0xF0) % 16 == 0,
{
    assert((x & 0xF0) % 16 == 0) by (bit_vector);
}

/// Splitting a 16-bit word into bytes and joining them again is lossless.
pub proof fn lemma_word_bytes(v: u16)
    ensures
        ((v >> 8) as u8) as u16 == v >> 8,
        v >> 8 < 256,
        (v & 0xFF) < 256,
        (((v >> 8) as u8) as u16) << 8 | ((v & 0xFF) as u8) as u16 == v,
        ((v & 0xFF) as u8) as u16 == v & 0xFF,
        ((v >> 8) as u8) as int * 256 + ((v & 0xFF) as u8) as int == v,
{
    assert(((v >> 8) as u8) as u16 == v >> 8 && v >> 8 < 256 && (v & 0xFF) < 256 && ((((v >> 8)
        as u8) as u16) << 8 | ((v & 0xFF) as u8) as u16 == v) && ((v & 0xFF) as u8) as u16 == v
        & 0xFF && ((v >> 8) as u8) as int * 256 + ((v & 0xFF) as u8) as int == v) by (bit_vector);
}

/// Joining two bytes, high part shifted, reads back as those bytes.
pub proof fn lemma_bytes_to_word(hi: u8, lo: u8)
    ensures
        (hi as u16) << 8 | lo as u16 == hi as u16 * 256 + lo as u16,
{
    assert((hi as u16) << 8 | lo as u16 == hi as u16 * 256 + lo as u16) by (bit_vector);
}

} // verus!
