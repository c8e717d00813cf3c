//! Bit fields of a single byte.

use vstd::prelude::*;

verus! {

/// Two to the power `k`, for the exponents that occur inside one byte.
pub open spec fn pow2(k: int) -> int {
    if k <= 0 {
        1
    } else if k == 1 {
        2
    } else if k == 2 {
        4
    } else if k == 3 {
        8
    } else if k == 4 {
        16
    } else if k == 5 {
        32
    } else if k == 6 {
        64
    } else if k == 7 {
        128
    } else {
        256
    }
}

/// The value of the `width` bits of `byte` that start at bit `first_bit`
/// (bit 1 is the most significant), right-justified.
pub open spec fn field(byte: u8, first_bit: int, width: int) -> int {
    (byte as int / pow2(9 - first_bit - width)) % pow2(width)
}

/// The three octal digits of a byte: two bits, three bits, three bits.
#[derive(Clone, Copy, Debug, PartialEq, Eq, Structural)]
pub struct Oct(pub u8, pub u8, pub u8);

fn power_of_two(k: u8) -> (p: u16)
    requires
        k <= 8,
    ensures
        p == pow2(k as int),
{
    match k {
        0 => 1,
        1 => 2,
        2 => 4,
        3 => 8,
        4 => 16,
        5 => 32,
        6 => 64,
        7 => 128,
        _ => 256,
    }
}

/// Extracts the `width`-bit field of `byte` that starts at bit `first_bit`.
pub fn extract(byte: u8, first_bit: u8, width: u8) -> (value: u8)
    requires
        1 <= first_bit <= 8,
        1 <= width <= 8,
        first_bit + width - 1 <= 8,
    ensures
        value == field(byte, first_bit as int, width as int),
        value < pow2(width as int),
{
    let low: u16 = power_of_two(9 - first_bit - width);
    let span: u16 = power_of_two(width);
    let shifted: u16 = byte as u16 / low;
    (shifted % span) as u8
}

/// Splits a byte into its octal digits.
pub fn byte_to_octal(byte: u8) -> (oct: Oct)
    ensures
        oct.0 == field(byte, 1, 2),
        oct.1 == field(byte, 3, 3),
        oct.2 == field(byte, 6, 3),
        oct.0 <= 3 && oct.1 <= 7 && oct.2 <= 7,
        byte == 64 * oct.0 + 8 * oct.1 + oct.2,
{
    Oct(extract(byte, 1, 2), extract(byte, 3, 3), extract(byte, 6, 3))
}

/// The fields of the two leading instruction bytes in closed form: each is
/// a quotient of the byte by a power of two, reduced modulo another.
pub proof fn field_closed_forms(byte: u8)
    ensures
        field(byte, 1, 2) == byte / 64,
        field(byte, 3, 3) == (byte / 8) % 8,
        field(byte, 6, 3) == byte % 8,
        field(byte, 1, 4) == byte / 16,
        field(byte, 5, 1) == (byte / 8) % 2,
        field(byte, 1, 6) == byte / 4,
        field(byte, 7, 1) == (byte / 2) % 2,
        field(byte, 1, 7) == byte / 2,
        field(byte, 8, 1) == byte % 2,
{
}

} // verus!
