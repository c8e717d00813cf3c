//! Reading bytes and little-endian words out of the instruction stream.

use vstd::prelude::*;

verus! {

/// The byte at index `at`, if the stream has one there.
pub open spec fn byte_at(bytes: Seq<u8>, at: int) -> Option<u8> {
    if 0 <= at < bytes.len() {
        Some(bytes[at])
    } else {
        None
    }
}

/// The 16-bit value whose low byte is `low` and whose high byte is `high`.
pub open spec fn little_endian(low: u8, high: u8) -> u16 {
    (low as int + 256 * (high as int)) as u16
}

/// The little-endian word at indices `at` and `at + 1`, if the stream has
/// both bytes.
pub open spec fn word_at(bytes: Seq<u8>, at: int) -> Option<u16> {
    if 0 <= at && at + 1 < bytes.len() {
        Some(little_endian(bytes[at], bytes[at + 1]))
    } else {
        None
    }
}

/// A byte read as a two's-complement number and widened to 16 bits.
pub open spec fn sign_extended(byte: u8) -> i16 {
    if byte < 128 {
        byte as i16
    } else {
        (byte as int - 256) as i16
    }
}

/// A 16-bit pattern read as a two's-complement number.
pub open spec fn as_signed(word: u16) -> i16 {
    if word < 32768 {
        word as i16
    } else {
        (word as int - 65536) as i16
    }
}

/// Reads the byte at index `at`.
pub fn read_byte(bytes: &[u8], at: usize) -> (byte: Option<u8>)
    ensures
        byte == byte_at(bytes@, at as int),
{
    if at < bytes.len() {
        Some(bytes[at])
    } else {
        None
    }
}

/// Reads the little-endian word at indices `at` and `at + 1`.
pub fn read_word(bytes: &[u8], at: usize) -> (word: Option<u16>)
    ensures
        word == word_at(bytes@, at as int),
{
    if at < bytes.len() && 1 < bytes.len() - at {
        let low: u16 = bytes[at] as u16;
        let high: u16 = bytes[at + 1] as u16;
        Some(low + 256 * high)
    } else {
        None
    }
}

/// Widens a byte to 16 bits, keeping its sign.
pub fn sign_extend(byte: u8) -> (value: i16)
    ensures
        value == sign_extended(byte),
        -128 <= value <= 127,
{
    if byte < 128 {
        byte as i16
    } else {
        (byte as i16) - 256
    }
}

/// Reads a 16-bit pattern as a two's-complement number.
pub fn to_signed(word: u16) -> (value: i16)
    ensures
        value == as_signed(word),
{
    if word < 32768 {
        word as i16
    } else {
        ((word as i32) - 65536) as i16
    }
}

} // verus!
