//! Splitting and joining 16-bit words, and reading a byte as a signed offset.
use vstd::prelude::*;

verus! {

/// The 16-bit word whose high byte is `high` and whose low byte is `low`.
pub open spec fn spec_word(high: u8, low: u8) -> u16 {
    (high as int * 256 + low as int) as u16
}

/// The upper eight bits of `value`.
pub open spec fn spec_high_byte(value: u16) -> u8 {
    (value / 256) as u8
}

/// The lower eight bits of `value`.
pub open spec fn spec_low_byte(value: u16) -> u8 {
    (value % 256) as u8
}

/// The byte read as a two's-complement number.
pub open spec fn spec_signed(byte: u8) -> int {
    if byte < 128 {
        byte as int
    } else {
        byte as int - 256
    }
}

/// `base` moved by `delta`, wrapped into sixteen bits.
pub open spec fn spec_wrap16(value: int) -> u16 {
    (value % 0x10000) as u16
}

proof fn lemma_word_bits(high: u8, low: u8)
    by (bit_vector)
    ensures
        ((high as u16) << 8) | (low as u16) == (high as u16) * 256 + (low as u16),
{
}

proof fn lemma_split_bits(value: u16)
    by (bit_vector)
    ensures
        value >> 8 == value / 256,
        value & 0xFF == value % 256,
{
}

/// Joins a high and a low byte into a word.
pub fn word(high: u8, low: u8) -> (value: u16)
    ensures
        value == spec_word(high, low),
{
    proof {
        lemma_word_bits(high, low);
    }
    ((high as u16) << 8) | (low as u16)
}

/// The upper eight bits of a word.
pub fn high_byte(value: u16) -> (byte: u8)
    ensures
        byte == spec_high_byte(value),
{
    proof {
        lemma_split_bits(value);
    }
    (value >> 8) as u8
}

/// The lower eight bits of a word.
pub fn low_byte(value: u16) -> (byte: u8)
    ensures
        byte == spec_low_byte(value),
{
    proof {
        lemma_split_bits(value);
    }
    (value & 0xFF) as u8
}

/// Reads a byte as a two's-complement offset.
pub fn signed(byte: u8) -> (offset: i8)
    ensures
        offset == spec_signed(byte),
{
    if byte < 128 {
        byte as i8
    } else {
        (byte as i16 - 256) as i8
    }
}

/// Splitting a word and joining the halves gives the word back, and the
/// other way round.
pub proof fn lemma_word_round_trip(value: u16, high: u8, low: u8)
    ensures
        spec_word(spec_high_byte(value), spec_low_byte(value)) == value,
        spec_high_byte(spec_word(high, low)) == high,
        spec_low_byte(spec_word(high, low)) == low,
{
}

} // verus!
