//! Composition of two bytes into a 16-bit word and back.
//!
//! A register pair is the concatenation of a high and a low byte. The
//! model below states that arithmetically; the lemmas tie it to the shift
//! and mask forms that the hardware manuals use.

use vstd::prelude::*;

verus! {

/// The word whose high byte is `hi` and whose low byte is `lo`.
pub open spec fn word_of(hi: u8, lo: u8) -> u16 {
    (hi as int * 256 + lo as int) as u16
}

/// The high byte of `v`.
pub open spec fn high_of(v: u16) -> u8 {
    (v as int / 256) as u8
}

/// The low byte of `v`.
pub open spec fn low_of(v: u16) -> u8 {
    (v as int % 256) as u8
}

/// `word_of` is the high byte shifted left by eight, or-ed with the low byte.
pub proof fn lemma_word_of_bits(hi: u8, lo: u8)
    ensures
        word_of(hi, lo) == (hi as u16) << 8 | (lo as u16),
{
    assert((hi as int * 256 + lo as int) as u16 == (hi as u16) << 8 | (lo as u16)) by (bit_vector);
}

/// `high_of` is a right shift by eight, `low_of` a mask with `0xFF`.
pub proof fn lemma_split_bits(v: u16)
    ensures
        high_of(v) == (v >> 8) as u8,
        low_of(v) == (v & 0xFF) as u8,
{
    assert((v as int / 256) as u8 == (v >> 8) as u8) by (bit_vector);
    assert((v as int % 256) as u8 == (v & 0xFF) as u8) by (bit_vector);
}

/// Splitting a word and joining the halves gives the word back.
pub proof fn lemma_split_then_join(v: u16)
    ensures
        word_of(high_of(v), low_of(v)) == v,
{
}

/// Joining two bytes and splitting the word gives the bytes back.
pub proof fn lemma_join_then_split(hi: u8, lo: u8)
    ensures
        high_of(word_of(hi, lo)) == hi,
        low_of(word_of(hi, lo)) == lo,
{
}

/// Joins a high and a low byte into a word.
pub fn join(hi: u8, lo: u8) -> (v: u16)
    ensures
        v == word_of(hi, lo),
        v == (hi as u16) << 8 | (lo as u16),
{
    proof {
        lemma_word_of_bits(hi, lo);
    }
    (hi as u16) << 8 | (lo as u16)
}

/// The high byte of a word.
pub fn high_byte(v: u16) -> (hi: u8)
    ensures
        hi == high_of(v),
        hi == (v >> 8) as u8,
{
    proof {
        lemma_split_bits(v);
        assert(v >> 8 <= 0xFF) by (bit_vector);
    }
    (v >> 8) as u8
}

/// The low byte of a word.
pub fn low_byte(v: u16) -> (lo: u8)
    ensures
        lo == low_of(v),
        lo == (v & 0xFF) as u8,
{
    proof {
        lemma_split_bits(v);
        assert(v & 0xFF <= 0xFF) by (bit_vector);
    }
    (v & 0xFF) as u8
}

} // verus!
