//! The decoded instruction.

use crate::operand::Operand;
use vstd::prelude::*;

verus! {

/// The operation of an instruction. The decoder knows one.
#[derive(Clone, Copy, Debug, PartialEq, Eq, Structural)]
pub enum Mnemonic {
    Mov,
}

/// One decoded instruction: what it does, where the value goes and where it
/// comes from.
#[derive(Clone, Copy, Debug, PartialEq, Eq)]
pub struct Instruction {
    pub mnemonic: Mnemonic,
    pub destination: Operand,
    pub source: Operand,
}

impl Instruction {
    /// The MOV from `source` to `destination`.
    pub open spec fn mov(destination: Operand, source: Operand) -> Instruction {
        Instruction { mnemonic: Mnemonic::Mov, destination, source }
    }

    /// What holds of every instruction that the decoder produces: it is a
    /// MOV, both operands are well-formed, the destination is no immediate,
    /// at most one operand is in memory, and where both operands have a
    /// width the two agree.
    pub open spec fn wf(self) -> bool {
        &&& self.mnemonic == Mnemonic::Mov
        &&& self.destination.wf()
        &&& self.source.wf()
        &&& !(self.destination is Immediate)
        &&& !(self.destination is Memory && self.source is Memory)
        &&& (self.destination.width() is Some && self.source.width() is Some
            ==> self.destination.width() == self.source.width())
    }

    /// Builds the MOV from `source` to `destination`.
    pub fn new_mov(destination: Operand, source: Operand) -> (instruction: Instruction)
        ensures
            instruction == Instruction::mov(destination, source),
    {
        Instruction { mnemonic: Mnemonic::Mov, destination, source }
    }
}

} // verus!
