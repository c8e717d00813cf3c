//! Operands, and the decoding of the operand that the mod and r/m fields
//! describe.

use crate::error::{DecodeError, Stage};
use crate::stream::{as_signed, byte_at, read_byte, read_word, sign_extend, sign_extended, to_signed, word_at};
use crate::tables::{
    direct_address_case, effective_address_table, get_displacement, get_mode, is_direct_address,
    lookup_effective_address, lookup_register, register_table, Displacement, MemoryComponents,
    Mode, Register, Width,
};
use vstd::prelude::*;

verus! {

/// A memory operand: either base and index registers with an optional
/// displacement, or an absolute address.
#[derive(Clone, Copy, Debug, PartialEq, Eq)]
pub struct Memory {
    pub components: MemoryComponents,
    pub displacement: Option<i16>,
    pub direct_address: Option<u16>,
}

/// What the mod and r/m fields resolve to.
#[derive(Clone, Copy, Debug, PartialEq, Eq)]
pub enum AddressingMode {
    RegisterDirect(Register),
    Memory(Memory),
}

/// An operand of an instruction.
#[derive(Clone, Copy, Debug, PartialEq, Eq)]
pub enum Operand {
    Register(Register),
    Memory(Memory),
    Immediate { value: i16, width: Width },
}

impl Memory {
    /// An absolute address stands alone: it has neither registers nor a
    /// displacement. Without one there is at least one register.
    pub open spec fn wf(self) -> bool {
        &&& self.direct_address is Some ==> self.components == MemoryComponents::Zero
            && self.displacement is None
        &&& self.direct_address is None ==> self.components != MemoryComponents::Zero
    }

    /// The memory operand at an absolute address.
    pub open spec fn direct(address: u16) -> Memory {
        Memory {
            components: MemoryComponents::Zero,
            displacement: None,
            direct_address: Some(address),
        }
    }

    /// The memory operand addressed through registers.
    pub open spec fn indirect(components: MemoryComponents, displacement: Option<i16>) -> Memory {
        Memory { components, displacement, direct_address: None }
    }

    /// Builds the memory operand at an absolute address.
    pub fn at_address(address: u16) -> (memory: Memory)
        ensures
            memory == Memory::direct(address),
            memory.wf(),
    {
        Memory {
            components: MemoryComponents::Zero,
            displacement: None,
            direct_address: Some(address),
        }
    }
}

impl AddressingMode {
    /// The operand that this addressing mode denotes.
    pub open spec fn operand(self) -> Operand {
        match self {
            AddressingMode::RegisterDirect(register) => Operand::Register(register),
            AddressingMode::Memory(memory) => Operand::Memory(memory),
        }
    }

    /// Turns the addressing mode into the operand that it denotes.
    pub fn into_operand(self) -> (operand: Operand)
        ensures
            operand == self.operand(),
    {
        match self {
            AddressingMode::RegisterDirect(register) => Operand::Register(register),
            AddressingMode::Memory(memory) => Operand::Memory(memory),
        }
    }
}

impl Operand {
    /// A register operand is a general register, a memory operand is
    /// well-formed, and a byte immediate fits in a byte.
    pub open spec fn wf(self) -> bool {
        match self {
            Operand::Register(register) => register.is_general(),
            Operand::Memory(memory) => memory.wf(),
            Operand::Immediate { value, width } => width == Width::Byte ==> 0 <= value <= 255,
        }
    }

    /// The width of a register or immediate operand; a memory operand has
    /// none of its own.
    pub open spec fn width(self) -> Option<Width> {
        match self {
            Operand::Register(register) => register.width(),
            Operand::Memory(_) => None,
            Operand::Immediate { value, width } => Some(width),
        }
    }
}

/// Number of bytes that follow the addressing byte for a mod and an r/m
/// field: the displacement or the absolute address.
pub open spec fn trailing_len(mode: int, rm: int) -> int {
    if mode == 3 {
        0
    } else if direct_address_case(mode, rm) {
        2
    } else if mode == 1 {
        1
    } else if mode == 2 {
        2
    } else {
        0
    }
}

/// What the mod and r/m fields resolve to when the bytes that follow the
/// addressing byte start at index `at`, together with the number of those
/// bytes that belong to the operand.
pub open spec fn addressing(bytes: Seq<u8>, at: usize, mode: int, rm: int, width: Width) -> Result<
    (AddressingMode, usize),
    DecodeError,
> {
    if mode == 3 {
        Ok((AddressingMode::RegisterDirect(register_table(width.bit(), rm)), 0usize))
    } else if direct_address_case(mode, rm) {
        match word_at(bytes, at as int) {
            Some(address) => Ok((AddressingMode::Memory(Memory::direct(address)), 2usize)),
            None => Err(DecodeError::TruncatedStream { offset: at, stage: Stage::Address }),
        }
    } else if mode == 1 {
        match byte_at(bytes, at as int) {
            Some(byte) => Ok(
                (
                    AddressingMode::Memory(
                        Memory::indirect(effective_address_table(rm), Some(sign_extended(byte))),
                    ),
                    1usize,
                ),
            ),
            None => Err(DecodeError::TruncatedStream { offset: at, stage: Stage::Displacement }),
        }
    } else if mode == 2 {
        match word_at(bytes, at as int) {
            Some(word) => Ok(
                (
                    AddressingMode::Memory(
                        Memory::indirect(effective_address_table(rm), Some(as_signed(word))),
                    ),
                    2usize,
                ),
            ),
            None => Err(DecodeError::TruncatedStream { offset: at, stage: Stage::Displacement }),
        }
    } else {
        Ok((AddressingMode::Memory(Memory::indirect(effective_address_table(rm), None)), 0usize))
    }
}

/// The operand that the mod and r/m fields describe, with the number of
/// bytes after the addressing byte that belong to it.
pub open spec fn rm_operand(bytes: Seq<u8>, at: usize, mode: int, rm: int, width: Width) -> Result<
    (Operand, usize),
    DecodeError,
> {
    match addressing(bytes, at, mode, rm, width) {
        Ok((resolved, used)) => Ok((resolved.operand(), used)),
        Err(error) => Err(error),
    }
}

/// Resolves the mod and r/m fields. `at` is the index just past the
/// addressing byte; the count that comes back says how many bytes from
/// there on are the operand's displacement or address.
pub fn decode_addressing(bytes: &[u8], at: usize, mode: u8, rm_code: u8, width: Width) -> (result:
    Result<(AddressingMode, usize), DecodeError>)
    requires
        mode <= 3,
        rm_code <= 7,
    ensures
        result == addressing(bytes@, at, mode as int, rm_code as int, width),
        result matches Ok((resolved, used)) ==> used == trailing_len(mode as int, rm_code as int)
            && (used > 0 ==> at + used <= bytes@.len()) && resolved.operand().wf(),
        result matches Ok((AddressingMode::Memory(memory), _)) ==> (memory.direct_address
            is Some <==> direct_address_case(mode as int, rm_code as int)) && (memory.displacement
            is Some <==> mode == 1 || mode == 2),
        result matches Ok((AddressingMode::RegisterDirect(_), _)) <==> mode == 3,
        result is Err <==> trailing_len(mode as int, rm_code as int) > 0 && at + trailing_len(
            mode as int,
            rm_code as int,
        ) > bytes@.len(),
{
    let selected = get_mode(&mode);
    match selected {
        Mode::RegMode => Ok((AddressingMode::RegisterDirect(lookup_register(width, rm_code)), 0)),
        Mode::MemMode(_) => {
            if is_direct_address(mode, rm_code) {
                match read_word(bytes, at) {
                    Some(address) => Ok((AddressingMode::Memory(Memory::at_address(address)), 2)),
                    None => Err(DecodeError::TruncatedStream { offset: at, stage: Stage::Address }),
                }
            } else {
                let components = lookup_effective_address(rm_code);
                match get_displacement(&selected) {
                    None => Ok(
                        (
                            AddressingMode::Memory(
                                Memory { components, displacement: None, direct_address: None },
                            ),
                            0,
                        ),
                    ),
                    Some(Displacement::D8) => match read_byte(bytes, at) {
                        Some(byte) => Ok(
                            (
                                AddressingMode::Memory(
                                    Memory {
                                        components,
                                        displacement: Some(sign_extend(byte)),
                                        direct_address: None,
                                    },
                                ),
                                1,
                            ),
                        ),
                        None => Err(
                            DecodeError::TruncatedStream { offset: at, stage: Stage::Displacement },
                        ),
                    },
                    Some(Displacement::D16) => match read_word(bytes, at) {
                        Some(word) => Ok(
                            (
                                AddressingMode::Memory(
                                    Memory {
                                        components,
                                        displacement: Some(to_signed(word)),
                                        direct_address: None,
                                    },
                                ),
                                2,
                            ),
                        ),
                        None => Err(
                            DecodeError::TruncatedStream { offset: at, stage: Stage::Displacement },
                        ),
                    },
                }
            }
        },
    }
}

/// Decodes the operand that the mod and r/m fields describe: a register in
/// mode 3, else a memory operand with the displacement or absolute address
/// read from index `at` on.
pub fn decode_rm_operand(bytes: &[u8], at: usize, mode: u8, rm_code: u8, width: Width) -> (result:
    Result<(Operand, usize), DecodeError>)
    requires
        mode <= 3,
        rm_code <= 7,
    ensures
        result == rm_operand(bytes@, at, mode as int, rm_code as int, width),
        result matches Ok((operand, used)) ==> used == trailing_len(mode as int, rm_code as int)
            && (used > 0 ==> at + used <= bytes@.len()) && operand.wf(),
        result is Err <==> trailing_len(mode as int, rm_code as int) > 0 && at + trailing_len(
            mode as int,
            rm_code as int,
        ) > bytes@.len(),
{
    match decode_addressing(bytes, at, mode, rm_code, width) {
        Ok((resolved, used)) => Ok((resolved.into_operand(), used)),
        Err(error) => Err(error),
    }
}

} // verus!
