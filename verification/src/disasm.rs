//! The driver: decodes instruction after instruction until the stream ends.

use crate::decode::{decode_instruction, decoding};
use crate::error::DecodeError;
use crate::instruction::Instruction;
use vstd::prelude::*;

verus! {

/// What one step of the driver finds at a position of the stream.
#[derive(Clone, Copy, Debug, PartialEq, Eq)]
pub enum Step {
    /// The position is the end of the stream: nothing is left to decode.
    Done,
    /// An instruction was decoded; the next one starts at `next`.
    Emitted { instruction: Instruction, next: usize },
    /// The bytes at the position are no complete, known instruction.
    Failed(DecodeError),
}

/// The state of the driver: bytes remain, or the position is the end.
#[derive(Clone, Copy, Debug, PartialEq, Eq, Structural)]
pub enum State {
    Reading,
    Done,
}

/// The driver's position in a stream. It only moves forward, and only by
/// the length of an instruction that was decoded.
#[derive(Clone, Copy, Debug, PartialEq, Eq)]
pub struct Disassembler {
    pub position: usize,
}

/// The state of a driver at `pos`.
pub open spec fn state_at(bytes: Seq<u8>, pos: usize) -> State {
    if pos >= bytes.len() {
        State::Done
    } else {
        State::Reading
    }
}

/// The position that a step leaves the driver at: the start of the next
/// instruction where one was decoded, else where it was.
pub open spec fn position_after(outcome: Step, pos: usize) -> usize {
    match outcome {
        Step::Emitted { instruction, next } => next,
        _ => pos,
    }
}

/// What the driver finds at `pos`: the end of the stream, or the outcome
/// of decoding there.
pub open spec fn stepping(bytes: Seq<u8>, pos: usize) -> Step {
    if pos >= bytes.len() {
        Step::Done
    } else {
        match decoding(bytes, pos) {
            Ok((instruction, used)) => Step::Emitted { instruction, next: (pos + used) as usize },
            Err(error) => Step::Failed(error),
        }
    }
}

/// The outcome `rest` of a tail of the stream, with the instructions
/// `done` that were decoded before it put in front.
pub open spec fn after(done: Seq<Instruction>, rest: Result<Seq<Instruction>, DecodeError>)
    -> Result<Seq<Instruction>, DecodeError> {
    match rest {
        Ok(more) => Ok(done + more),
        Err(error) => Err(error),
    }
}

/// The instructions of the stream from `pos` to its end, in order, or the
/// first failure met on the way.
pub open spec fn listing(bytes: Seq<u8>, pos: usize) -> Result<Seq<Instruction>, DecodeError>
    decreases bytes.len() - pos,
{
    match stepping(bytes, pos) {
        Step::Done => Ok(Seq::empty()),
        Step::Failed(error) => Err(error),
        Step::Emitted { instruction, next } => if pos < next {
            after(seq![instruction], listing(bytes, next))
        } else {
            Ok(seq![instruction])
        },
    }
}

/// One step of the driver at `pos`. An instruction that was decoded moves
/// the position forward by exactly its length, and never past the end.
pub fn step(bytes: &[u8], pos: usize) -> (outcome: Step)
    ensures
        outcome == stepping(bytes@, pos),
        outcome matches Step::Emitted { instruction, next } ==> instruction.wf() && pos + 2 <= next
            <= bytes@.len(),
        outcome is Done <==> pos >= bytes@.len(),
{
    if pos >= bytes.len() {
        Step::Done
    } else {
        match decode_instruction(bytes, pos) {
            Ok((instruction, used)) => Step::Emitted { instruction, next: pos + used },
            Err(error) => Step::Failed(error),
        }
    }
}

impl Disassembler {
    /// A driver at the start of a stream.
    pub fn new() -> (driver: Disassembler)
        ensures
            driver.position == 0,
    {
        Disassembler { position: 0 }
    }

    /// Whether bytes remain at the driver's position.
    pub fn state(&self, bytes: &[u8]) -> (state: State)
        ensures
            state == state_at(bytes@, self.position),
    {
        if self.position >= bytes.len() {
            State::Done
        } else {
            State::Reading
        }
    }

    /// Takes one step: decodes the instruction at the position and moves
    /// past it. At the end of the stream and on a failure the position
    /// stays where it is.
    pub fn advance(&mut self, bytes: &[u8]) -> (outcome: Step)
        ensures
            outcome == stepping(bytes@, old(self).position),
            final(self).position == position_after(outcome, old(self).position),
            outcome is Emitted ==> old(self).position + 2 <= final(self).position <= bytes@.len(),
            outcome is Done <==> state_at(bytes@, old(self).position) == State::Done,
    {
        let outcome = step(bytes, self.position);
        match outcome {
            Step::Emitted { instruction, next } => {
                self.position = next;
            },
            _ => {},
        }
        outcome
    }
}

/// Decodes the whole stream. The result is every instruction in order
/// where the stream is a sequence of complete known instructions, and else
/// the first failure.
pub fn disassemble(bytes: &[u8]) -> (result: Result<Vec<Instruction>, DecodeError>)
    ensures
        match result {
            Ok(instructions) => listing(bytes@, 0) == Ok::<Seq<Instruction>, DecodeError>(
                instructions@,
            ) && forall|i: int| 0 <= i < instructions@.len() ==> (#[trigger] instructions@[i]).wf(),
            Err(error) => listing(bytes@, 0) == Err::<Seq<Instruction>, DecodeError>(error),
        },
{
    let mut instructions: Vec<Instruction> = Vec::new();
    let mut pos: usize = 0;
    proof {
        assert(Seq::<Instruction>::empty() + listing(bytes@, 0)->Ok_0 =~= listing(bytes@, 0)->Ok_0);
    }
    loop
        invariant
            listing(bytes@, 0) == after(instructions@, listing(bytes@, pos)),
            forall|i: int| 0 <= i < instructions@.len() ==> (#[trigger] instructions@[i]).wf(),
        decreases bytes@.len() - pos,
    {
        match step(bytes, pos) {
            Step::Done => {
                proof {
                    assert(instructions@ + Seq::<Instruction>::empty() =~= instructions@);
                }
                return Ok(instructions);
            },
            Step::Failed(error) => {
                return Err(error);
            },
            Step::Emitted { instruction, next } => {
                proof {
                    let tail = listing(bytes@, next);
                    if tail is Ok {
                        assert(instructions@ + (seq![instruction] + tail->Ok_0)
                            =~= instructions@.push(instruction) + tail->Ok_0);
                    }
                }
                instructions.push(instruction);
                pos = next;
            },
        }
    }
}

} // verus!
