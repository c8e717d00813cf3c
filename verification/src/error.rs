//! The ways in which decoding fails.

use vstd::prelude::*;

verus! {

/// The part of an instruction that the decoder was reading.
#[derive(Clone, Copy, Debug, PartialEq, Eq, Structural)]
pub enum Stage {
    /// The first byte.
    Opcode,
    /// The byte that holds the mod, reg and r/m fields.
    AddressingByte,
    /// The displacement that follows the addressing byte.
    Displacement,
    /// An absolute 16-bit address.
    Address,
    /// The immediate value.
    Immediate,
}

/// Why an instruction could not be decoded.
#[derive(Clone, Copy, Debug, PartialEq, Eq, Structural)]
pub enum DecodeError {
    /// The stream ends inside an instruction. `offset` is where the part
    /// that is cut short begins (or would begin), `stage` says which part.
    TruncatedStream { offset: usize, stage: Stage },
    /// The byte at `offset` opens none of the known encodings.
    UnsupportedOpcode { offset: usize, value: u8 },
    /// The byte at `offset` holds a field value that its encoding forbids.
    InvalidFieldCombination { offset: usize, value: u8 },
}

} // verus!
