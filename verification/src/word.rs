//! Joining two bytes into a 16-bit word and splitting a word into its bytes.

use vstd::prelude::*;

verus! {

/// The word whose high byte is `hi` and whose low byte is `lo`.
pub open spec fn spec_pair_of(hi: u8, lo: u8) -> u16 {
    ((hi as u16) << 8) | (lo as u16)
}

/// Bits 15..8 of `word`.
pub open spec fn spec_high(word: u16) -> u8 {
    (word >> 8) as u8
}

/// Bits 7..0 of `word`.
pub open spec fn spec_low(word: u16) -> u8 {
    (word & 0xff) as u8
}

/// Splitting a joined pair gives back the two bytes.
pub proof fn lemma_split_pair(hi: u8, lo: u8)
    by (bit_vector)
    ensures
        spec_high(spec_pair_of(hi, lo)) == hi,
        spec_low(spec_pair_of(hi, lo)) == lo,
{
}

/// Joining the two bytes of a word gives back the word.
pub proof fn lemma_pair_split(word: u16)
    by (bit_vector)
    ensures
        spec_pair_of(spec_high(word), spec_low(word)) == word,
{
}

/// The numeric value of a pair: the high byte counts 256 times.
pub proof fn lemma_pair_value(hi: u8, lo: u8)
    by (bit_vector)
    ensures
        spec_pair_of(hi, lo) == hi * 256 + lo,
{
}

/// Joins two bytes into one word, `hi` in bits 15..8 and `lo` in bits 7..0.
pub fn pair_of(hi: u8, lo: u8) -> (word: u16)
    ensures
        word == spec_pair_of(hi, lo),
{
    ((hi as u16) << 8) | (lo as u16)
}

/// Splits a word into its high and low byte, in that order.
pub fn split(word: u16) -> (bytes: (u8, u8))
    ensures
        bytes.0 == spec_high(word),
        bytes.1 == spec_low(word),
{
    let hi: u16 = word >> 8;
    let lo: u16 = word & 0xff;
    assert(hi <= 0xff && lo <= 0xff) by (bit_vector)
        requires
            hi == word >> 8,
            lo == word & 0xff,
    ;
    (hi as u8, lo as u8)
}

} // verus!
