//! Decoding of one instruction: classification of the first byte, then the
//! routine of the format that it selects.

use crate::bits::{extract, field};
use crate::classify::{classification, classify, Format};
use crate::error::{DecodeError, Stage};
use crate::instruction::Instruction;
use crate::operand::{decode_rm_operand, rm_operand, trailing_len, Memory, Operand};
use crate::stream::{as_signed, byte_at, read_byte, read_word, to_signed, word_at};
use crate::tables::{lookup_register, register_table, Width};
use vstd::prelude::*;

verus! {

/// The immediate of the given width that starts at index `at`: one byte
/// taken as it is, or a little-endian word read as a 16-bit pattern.
pub open spec fn immediate_at(bytes: Seq<u8>, at: int, width: Width) -> Option<i16> {
    match width {
        Width::Byte => match byte_at(bytes, at) {
            Some(byte) => Some(byte as i16),
            None => None,
        },
        Width::Word => match word_at(bytes, at) {
            Some(word) => Some(as_signed(word)),
            None => None,
        },
    }
}

/// Reads the immediate of the given width that starts at index `at`.
pub fn read_immediate(bytes: &[u8], at: usize, width: Width) -> (value: Option<i16>)
    ensures
        value == immediate_at(bytes@, at as int, width),
        value is Some <==> at + width.size() <= bytes@.len(),
{
    match width {
        Width::Byte => match read_byte(bytes, at) {
            Some(byte) => Some(byte as i16),
            None => None,
        },
        Width::Word => match read_word(bytes, at) {
            Some(word) => Some(to_signed(word)),
            None => None,
        },
    }
}

/// `1011 w reg`, then the immediate: the register named by `w` and `reg`
/// receives it.
pub open spec fn immediate_to_register(bytes: Seq<u8>, pos: usize) -> Result<
    (Instruction, usize),
    DecodeError,
> {
    let first = bytes[pos as int];
    let w = field(first, 5, 1);
    let width = Width::of_bit(w);
    match immediate_at(bytes, pos + 1, width) {
        Some(value) => Ok(
            (
                Instruction::mov(
                    Operand::Register(register_table(w, field(first, 6, 3))),
                    Operand::Immediate { value, width },
                ),
                (1 + width.size()) as usize,
            ),
        ),
        None => Err(
            DecodeError::TruncatedStream { offset: (pos + 1) as usize, stage: Stage::Immediate },
        ),
    }
}

/// `100010 d w`, then `mod reg r/m` and what the mode asks for: a MOV
/// between the register named by `reg` and the operand named by `mod` and
/// `r/m`, towards the register where `d` is 1.
pub open spec fn register_memory(bytes: Seq<u8>, pos: usize) -> Result<
    (Instruction, usize),
    DecodeError,
> {
    let first = bytes[pos as int];
    let d = field(first, 7, 1);
    let w = field(first, 8, 1);
    match byte_at(bytes, pos + 1) {
        None => Err(
            DecodeError::TruncatedStream {
                offset: (pos + 1) as usize,
                stage: Stage::AddressingByte,
            },
        ),
        Some(second) => {
            let register = Operand::Register(register_table(w, field(second, 3, 3)));
            match rm_operand(
                bytes,
                (pos + 2) as usize,
                field(second, 1, 2),
                field(second, 6, 3),
                Width::of_bit(w),
            ) {
                Err(error) => Err(error),
                Ok((other, used)) => Ok(
                    (
                        if d == 1 {
                            Instruction::mov(register, other)
                        } else {
                            Instruction::mov(other, register)
                        },
                        (2 + used) as usize,
                    ),
                ),
            }
        },
    }
}

/// `1100011 w`, then `mod 000 r/m`, what the mode asks for, and the
/// immediate: the operand named by `mod` and `r/m` receives it. A `reg`
/// field other than 000 is refused.
pub open spec fn immediate_to_register_memory(bytes: Seq<u8>, pos: usize) -> Result<
    (Instruction, usize),
    DecodeError,
> {
    let first = bytes[pos as int];
    let width = Width::of_bit(field(first, 8, 1));
    match byte_at(bytes, pos + 1) {
        None => Err(
            DecodeError::TruncatedStream {
                offset: (pos + 1) as usize,
                stage: Stage::AddressingByte,
            },
        ),
        Some(second) => if field(second, 3, 3) != 0 {
            Err(
                DecodeError::InvalidFieldCombination { offset: (pos + 1) as usize, value: second },
            )
        } else {
            match rm_operand(
                bytes,
                (pos + 2) as usize,
                field(second, 1, 2),
                field(second, 6, 3),
                width,
            ) {
                Err(error) => Err(error),
                Ok((target, used)) => match immediate_at(bytes, pos + 2 + used, width) {
                    Some(value) => Ok(
                        (
                            Instruction::mov(target, Operand::Immediate { value, width }),
                            (2 + used + width.size()) as usize,
                        ),
                    ),
                    None => Err(
                        DecodeError::TruncatedStream {
                            offset: (pos + 2 + used) as usize,
                            stage: Stage::Immediate,
                        },
                    ),
                },
            }
        },
    }
}

/// `1010000 w`, then a 16-bit address: the accumulator of width `w`
/// receives what is stored there.
pub open spec fn memory_to_accumulator(bytes: Seq<u8>, pos: usize) -> Result<
    (Instruction, usize),
    DecodeError,
> {
    let w = field(bytes[pos as int], 8, 1);
    match word_at(bytes, pos + 1) {
        Some(address) => Ok(
            (
                Instruction::mov(
                    Operand::Register(register_table(w, 0)),
                    Operand::Memory(Memory::direct(address)),
                ),
                3usize,
            ),
        ),
        None => Err(
            DecodeError::TruncatedStream { offset: (pos + 1) as usize, stage: Stage::Address },
        ),
    }
}

/// `1010001 w`, then a 16-bit address: the accumulator of width `w` is
/// stored there.
pub open spec fn accumulator_to_memory(bytes: Seq<u8>, pos: usize) -> Result<
    (Instruction, usize),
    DecodeError,
> {
    let w = field(bytes[pos as int], 8, 1);
    match word_at(bytes, pos + 1) {
        Some(address) => Ok(
            (
                Instruction::mov(
                    Operand::Memory(Memory::direct(address)),
                    Operand::Register(register_table(w, 0)),
                ),
                3usize,
            ),
        ),
        None => Err(
            DecodeError::TruncatedStream { offset: (pos + 1) as usize, stage: Stage::Address },
        ),
    }
}

/// The instruction that starts at index `pos` of the stream and the number
/// of bytes that it occupies, or the reason why there is none.
pub open spec fn decoding(bytes: Seq<u8>, pos: usize) -> Result<(Instruction, usize), DecodeError> {
    if pos >= bytes.len() {
        Err(DecodeError::TruncatedStream { offset: pos, stage: Stage::Opcode })
    } else {
        match classification(bytes[pos as int]) {
            None => Err(DecodeError::UnsupportedOpcode { offset: pos, value: bytes[pos as int] }),
            Some(Format::ImmediateToRegister) => immediate_to_register(bytes, pos),
            Some(Format::RegisterMemory) => register_memory(bytes, pos),
            Some(Format::ImmediateToRegisterMemory) => immediate_to_register_memory(bytes, pos),
            Some(Format::MemoryToAccumulator) => memory_to_accumulator(bytes, pos),
            Some(Format::AccumulatorToMemory) => accumulator_to_memory(bytes, pos),
        }
    }
}

/// Decodes an immediate-to-register instruction whose first byte is at
/// `pos`.
pub fn decode_immediate_to_register(bytes: &[u8], pos: usize) -> (result: Result<
    (Instruction, usize),
    DecodeError,
>)
    requires
        pos < bytes@.len(),
    ensures
        result == immediate_to_register(bytes@, pos),
        result matches Ok((instruction, used)) ==> instruction.wf() && 2 <= used && pos + used
            <= bytes@.len(),
{
    let first = bytes[pos];
    let w = extract(first, 5, 1);
    let width = Width::from_bit(w);
    let register = lookup_register(width, extract(first, 6, 3));
    match read_immediate(bytes, pos + 1, width) {
        Some(value) => Ok(
            (
                Instruction::new_mov(
                    Operand::Register(register),
                    Operand::Immediate { value, width },
                ),
                1 + width.byte_count(),
            ),
        ),
        None => Err(DecodeError::TruncatedStream { offset: pos + 1, stage: Stage::Immediate }),
    }
}

/// Decodes a register/memory-to/from-register instruction whose first byte
/// is at `pos`.
pub fn decode_register_memory(bytes: &[u8], pos: usize) -> (result: Result<
    (Instruction, usize),
    DecodeError,
>)
    requires
        pos < bytes@.len(),
    ensures
        result == register_memory(bytes@, pos),
        result matches Ok((instruction, used)) ==> instruction.wf() && 2 <= used && pos + used
            <= bytes@.len(),
{
    let first = bytes[pos];
    let d = extract(first, 7, 1);
    let width = Width::from_bit(extract(first, 8, 1));
    let second = match read_byte(bytes, pos + 1) {
        Some(byte) => byte,
        None => {
            return Err(
                DecodeError::TruncatedStream { offset: pos + 1, stage: Stage::AddressingByte },
            );
        },
    };
    let register = Operand::Register(lookup_register(width, extract(second, 3, 3)));
    match decode_rm_operand(bytes, pos + 2, extract(second, 1, 2), extract(second, 6, 3), width) {
        Err(error) => Err(error),
        Ok((other, used)) => {
            let instruction = if d == 1 {
                Instruction::new_mov(register, other)
            } else {
                Instruction::new_mov(other, register)
            };
            Ok((instruction, 2 + used))
        },
    }
}

/// Decodes an immediate-to-register/memory instruction whose first byte is
/// at `pos`.
pub fn decode_immediate_to_register_memory(bytes: &[u8], pos: usize) -> (result: Result<
    (Instruction, usize),
    DecodeError,
>)
    requires
        pos < bytes@.len(),
    ensures
        result == immediate_to_register_memory(bytes@, pos),
        result matches Ok((instruction, used)) ==> instruction.wf() && 3 <= used && pos + used
            <= bytes@.len(),
{
    let first = bytes[pos];
    let width = Width::from_bit(extract(first, 8, 1));
    let second = match read_byte(bytes, pos + 1) {
        Some(byte) => byte,
        None => {
            return Err(
                DecodeError::TruncatedStream { offset: pos + 1, stage: Stage::AddressingByte },
            );
        },
    };
    if extract(second, 3, 3) != 0 {
        return Err(DecodeError::InvalidFieldCombination { offset: pos + 1, value: second });
    }
    match decode_rm_operand(bytes, pos + 2, extract(second, 1, 2), extract(second, 6, 3), width) {
        Err(error) => Err(error),
        Ok((target, used)) => match read_immediate(bytes, pos + 2 + used, width) {
            Some(value) => Ok(
                (
                    Instruction::new_mov(target, Operand::Immediate { value, width }),
                    2 + used + width.byte_count(),
                ),
            ),
            None => Err(
                DecodeError::TruncatedStream { offset: pos + 2 + used, stage: Stage::Immediate },
            ),
        },
    }
}

/// Decodes a memory-to-accumulator instruction whose first byte is at
/// `pos`.
pub fn decode_memory_to_accumulator(bytes: &[u8], pos: usize) -> (result: Result<
    (Instruction, usize),
    DecodeError,
>)
    requires
        pos < bytes@.len(),
    ensures
        result == memory_to_accumulator(bytes@, pos),
        result matches Ok((instruction, used)) ==> instruction.wf() && used == 3 && pos + used
            <= bytes@.len(),
{
    let width = Width::from_bit(extract(bytes[pos], 8, 1));
    let accumulator = Operand::Register(lookup_register(width, 0));
    match read_word(bytes, pos + 1) {
        Some(address) => Ok(
            (Instruction::new_mov(accumulator, Operand::Memory(Memory::at_address(address))), 3),
        ),
        None => Err(DecodeError::TruncatedStream { offset: pos + 1, stage: Stage::Address }),
    }
}

/// Decodes an accumulator-to-memory instruction whose first byte is at
/// `pos`.
pub fn decode_accumulator_to_memory(bytes: &[u8], pos: usize) -> (result: Result<
    (Instruction, usize),
    DecodeError,
>)
    requires
        pos < bytes@.len(),
    ensures
        result == accumulator_to_memory(bytes@, pos),
        result matches Ok((instruction, used)) ==> instruction.wf() && used == 3 && pos + used
            <= bytes@.len(),
{
    let width = Width::from_bit(extract(bytes[pos], 8, 1));
    let accumulator = Operand::Register(lookup_register(width, 0));
    match read_word(bytes, pos + 1) {
        Some(address) => Ok(
            (Instruction::new_mov(Operand::Memory(Memory::at_address(address)), accumulator), 3),
        ),
        None => Err(DecodeError::TruncatedStream { offset: pos + 1, stage: Stage::Address }),
    }
}

/// Decodes the instruction whose first byte is at index `pos`. On success
/// the count that comes back is the exact number of bytes that the
/// instruction occupies, so `pos` plus that count is where the next one
/// starts.
pub fn decode_instruction(bytes: &[u8], pos: usize) -> (result: Result<
    (Instruction, usize),
    DecodeError,
>)
    ensures
        result == decoding(bytes@, pos),
        result matches Ok((instruction, used)) ==> instruction.wf() && 2 <= used <= 6 && pos + used
            <= bytes@.len(),
{
    let first = match read_byte(bytes, pos) {
        Some(byte) => byte,
        None => {
            return Err(DecodeError::TruncatedStream { offset: pos, stage: Stage::Opcode });
        },
    };
    match classify(first) {
        None => Err(DecodeError::UnsupportedOpcode { offset: pos, value: first }),
        Some(Format::ImmediateToRegister) => decode_immediate_to_register(bytes, pos),
        Some(Format::RegisterMemory) => decode_register_memory(bytes, pos),
        Some(Format::ImmediateToRegisterMemory) => decode_immediate_to_register_memory(bytes, pos),
        Some(Format::MemoryToAccumulator) => decode_memory_to_accumulator(bytes, pos),
        Some(Format::AccumulatorToMemory) => decode_accumulator_to_memory(bytes, pos),
    }
}

} // verus!
