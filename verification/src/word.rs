//! Sixteen-bit words and the two bytes that make them up.

use vstd::prelude::*;

verus! {

/// The word whose high byte is `high` and whose low byte is `low`.
pub open spec fn word(high: u8, low: u8) -> u16 {
    (high as int * 0x100 + low as int) as u16
}

/// The high byte of `value`.
pub open spec fn high_byte(value: u16) -> u8 {
    (value as int / 0x100) as u8
}

/// The low byte of `value`.
pub open spec fn low_byte(value: u16) -> u8 {
    (value as int % 0x100) as u8
}

/// The sixteen-bit value that `value` wraps to.
pub open spec fn wrap16(value: int) -> u16 {
    (value % 0x1_0000) as u16
}

/// Splitting a word and joining the halves gives the word back.
pub proof fn lemma_split_then_join(value: u16)
    ensures
        word(high_byte(value), low_byte(value)) == value,
{
}

/// Joining two bytes and splitting the word gives the bytes back.
pub proof fn lemma_join_then_split(high: u8, low: u8)
    ensures
        high_byte(word(high, low)) == high,
        low_byte(word(high, low)) == low,
{
}

/// A word is its high byte shifted up by eight bits, or-ed with its low
/// byte.
pub proof fn lemma_word_is_shift_or(high: u8, low: u8)
    ensures
        word(high, low) == (high as u16) << 8 | (low as u16),
{
    assert((high as u16) << 8 | (low as u16) == high * 0x100 + low) by (bit_vector);
}

/// The high byte of a word is the word shifted down by eight bits, and its
/// low byte is the word under the mask 0xFF.
pub proof fn lemma_bytes_are_shift_and_mask(value: u16)
    ensures
        high_byte(value) == value >> 8,
        high_byte(value) == (value & 0xFF00) >> 8,
        low_byte(value) == value & 0xFF,
{
    assert(value >> 8 == value / 0x100) by (bit_vector);
    assert((value & 0xFF00) >> 8 == value / 0x100) by (bit_vector);
    assert(value & 0xFF == value % 0x100) by (bit_vector);
}

/// Joins a high and a low byte into a word.
pub fn join(high: u8, low: u8) -> (value: u16)
    ensures
        value == word(high, low),
{
    proof {
        lemma_word_is_shift_or(high, low);
    }
    (high as u16) << 8 | low as u16
}

/// Splits a word into its high and its low byte.
pub fn split(value: u16) -> (halves: (u8, u8))
    ensures
        halves.0 == high_byte(value),
        halves.1 == low_byte(value),
{
    proof {
        lemma_bytes_are_shift_and_mask(value);
    }
    ((value >> 8) as u8, (value & 0xFF) as u8)
}

} // verus!
