//! 16-bit words as a pair of bytes.
//!
//! The model is arithmetic: a word is `256 * high + low`. The lemmas tie that
//! model to the shifts and masks that compute it.

use vstd::prelude::*;

verus! {

/// The word whose bits 15 to 8 are `high` and whose bits 7 to 0 are `low`.
pub open spec fn word(high: u8, low: u8) -> u16 {
    (256 * high + low) as u16
}

/// Bits 15 to 8 of `value`.
pub open spec fn high_byte(value: u16) -> u8 {
    (value / 256) as u8
}

/// Bits 7 to 0 of `value`.
pub open spec fn low_byte(value: u16) -> u8 {
    (value % 256) as u8
}

/// Shifting the high byte up by eight bits and or-ing the low byte in
/// composes the word.
pub proof fn lemma_word_is_shift_or(high: u8, low: u8)
    ensures
        ((high as u16) << 8) | (low as u16) == word(high, low),
{
    assert(((high as u16) << 8) | (low as u16) == 256 * high + low) by (bit_vector);
}

/// Shifting a word down by eight bits leaves its high byte, whether or not
/// the result or the word is masked as well.
pub proof fn lemma_high_byte_is_shift(value: u16)
    ensures
        (value >> 8) & 0xFF == high_byte(value),
        (value & 0xFF00) >> 8 == high_byte(value),
        value >> 8 == high_byte(value),
{
    assert((value >> 8) & 0xFF == value / 256) by (bit_vector);
    assert((value & 0xFF00) >> 8 == value / 256) by (bit_vector);
    assert(value >> 8 == value / 256) by (bit_vector);
}

/// Masking a word with `0xFF` leaves its low byte.
pub proof fn lemma_low_byte_is_mask(value: u16)
    ensures
        value & 0xFF == low_byte(value),
{
    assert(value & 0xFF == value % 256) by (bit_vector);
}

/// A word composed of two bytes splits into those bytes again.
pub proof fn lemma_split_of_word(high: u8, low: u8)
    ensures
        high_byte(word(high, low)) == high,
        low_byte(word(high, low)) == low,
{
}

/// The two bytes of a word compose that word again.
pub proof fn lemma_word_of_split(value: u16)
    ensures
        word(high_byte(value), low_byte(value)) == value,
{
}

} // verus!
