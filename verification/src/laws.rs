//! What holds of every decoding: how many bytes an instruction occupies,
//! when decoding succeeds, that the result depends on nothing but the bytes
//! of the instruction, and that streams compose.

use crate::bits::{field, field_closed_forms};
use crate::classify::{classification, classification_by_range, patterns_exclusive, Format};
use crate::decode::decoding;
use crate::disasm::{listing, stepping, Step};
use crate::error::DecodeError;
use crate::instruction::Instruction;
use crate::operand::{trailing_len, Memory, Operand};
use crate::render::register_name;
use crate::stream::little_endian;
use crate::tables::{opcode_table, register_table, MemoryComponents, OpCode, Register, Width};
use vstd::prelude::*;

verus! {

/// Whether the format has an addressing byte after the first byte.
pub open spec fn has_addressing_byte(format: Format) -> bool {
    format == Format::RegisterMemory || format == Format::ImmediateToRegisterMemory
}

/// The number of bytes of an instruction of the given format, from its
/// first byte and, where the format has an addressing byte, its second.
pub open spec fn encoded_len(format: Format, first: u8, second: u8) -> int {
    match format {
        Format::ImmediateToRegister => 1 + Width::of_bit(field(first, 5, 1)).size(),
        Format::RegisterMemory => 2 + trailing_len(field(second, 1, 2), field(second, 6, 3)),
        Format::ImmediateToRegisterMemory => 2 + trailing_len(
            field(second, 1, 2),
            field(second, 6, 3),
        ) + Width::of_bit(field(first, 8, 1)).size(),
        Format::MemoryToAccumulator => 3,
        Format::AccumulatorToMemory => 3,
    }
}

/// Whether the operand is a memory operand with a displacement.
pub open spec fn carries_displacement(operand: Operand) -> bool {
    operand matches Operand::Memory(memory) && memory.displacement is Some
}

/// The byte after the one at `pos`, or zero where the stream ends there.
pub open spec fn second_byte(bytes: Seq<u8>, pos: usize) -> u8 {
    if pos + 1 < bytes.len() {
        bytes[pos + 1]
    } else {
        0
    }
}

/// Decoding at `pos` succeeds exactly when the first byte has a known
/// format, the addressing byte (where the format has one) is there and
/// allowed, and the stream holds the whole instruction. It then reports the
/// encoded length, and the instruction is well-formed.
pub proof fn decoding_succeeds_iff(bytes: Seq<u8>, pos: usize)
    requires
        pos < bytes.len() <= usize::MAX,
    ensures
        decoding(bytes, pos) is Ok <==> (classification(bytes[pos as int]) matches Some(format) && (
        has_addressing_byte(format) ==> pos + 1 < bytes.len()) && (format
            == Format::ImmediateToRegisterMemory ==> field(second_byte(bytes, pos), 3, 3) == 0)
            && pos + encoded_len(format, bytes[pos as int], second_byte(bytes, pos))
            <= bytes.len()),
        decoding(bytes, pos) matches Ok((instruction, used)) ==> instruction.wf() && used
            == encoded_len(
            classification(bytes[pos as int])->Some_0,
            bytes[pos as int],
            second_byte(bytes, pos),
        ) && 2 <= used <= 6 && pos + used <= bytes.len(),
{
    classification_by_range(bytes[pos as int]);
    field_closed_forms(bytes[pos as int]);
    if pos + 1 < bytes.len() {
        field_closed_forms(bytes[pos + 1]);
    }
}

/// A register-to-register MOV (`100010 d w` with mod 3) occupies exactly
/// two bytes, and both of its operands are registers.
pub proof fn register_direct_takes_two_bytes(bytes: Seq<u8>, pos: usize)
    requires
        pos + 2 <= bytes.len() <= usize::MAX,
        Format::RegisterMemory.accepts(bytes[pos as int]),
        field(bytes[pos + 1], 1, 2) == 3,
    ensures
        decoding(bytes, pos) matches Ok((instruction, used)) && used == 2
            && instruction.destination is Register && instruction.source is Register,
{
    classification_by_range(bytes[pos as int]);
    field_closed_forms(bytes[pos as int]);
    field_closed_forms(bytes[pos + 1]);
}

/// A `100010 d w` MOV whose operand has a displacement occupies the two
/// leading bytes and the displacement: three bytes in mode 1, four in mode
/// 2. The displacement is kept even where it is zero.
pub proof fn displacement_bytes_are_consumed(bytes: Seq<u8>, pos: usize)
    requires
        pos + 2 <= bytes.len() <= usize::MAX,
        Format::RegisterMemory.accepts(bytes[pos as int]),
        field(bytes[pos + 1], 1, 2) == 1 || field(bytes[pos + 1], 1, 2) == 2,
        pos + 2 + field(bytes[pos + 1], 1, 2) <= bytes.len(),
    ensures
        decoding(bytes, pos) matches Ok((instruction, used)) && used == 2 + field(
            bytes[pos + 1],
            1,
            2,
        ) && (carries_displacement(instruction.destination) || carries_displacement(
            instruction.source,
        )),
{
    classification_by_range(bytes[pos as int]);
    field_closed_forms(bytes[pos as int]);
    field_closed_forms(bytes[pos + 1]);
}

/// With an immediate to store, the same displacement forms are longer by
/// the immediate: one byte or two after the displacement.
pub proof fn immediate_follows_displacement(bytes: Seq<u8>, pos: usize)
    requires
        pos + 2 <= bytes.len() <= usize::MAX,
        Format::ImmediateToRegisterMemory.accepts(bytes[pos as int]),
        field(bytes[pos + 1], 3, 3) == 0,
        pos + 2 + trailing_len(field(bytes[pos + 1], 1, 2), field(bytes[pos + 1], 6, 3))
            + Width::of_bit(field(bytes[pos as int], 8, 1)).size() <= bytes.len(),
    ensures
        decoding(bytes, pos) matches Ok((instruction, used)) && used == 2 + trailing_len(
            field(bytes[pos + 1], 1, 2),
            field(bytes[pos + 1], 6, 3),
        ) + Width::of_bit(field(bytes[pos as int], 8, 1)).size() && instruction.source
            is Immediate,
{
    classification_by_range(bytes[pos as int]);
    field_closed_forms(bytes[pos as int]);
    field_closed_forms(bytes[pos + 1]);
}

/// The direct-address form (`100010 d w` with mod 0 and r/m 6) occupies
/// four bytes. Its memory operand is the absolute address in the last two
/// bytes, low byte first, with no registers and no displacement; the other
/// operand is the register that `reg` names.
pub proof fn direct_address_form(bytes: Seq<u8>, pos: usize)
    requires
        pos + 4 <= bytes.len() <= usize::MAX,
        Format::RegisterMemory.accepts(bytes[pos as int]),
        field(bytes[pos + 1], 1, 2) == 0,
        field(bytes[pos + 1], 6, 3) == 6,
    ensures
        decoding(bytes, pos) matches Ok((instruction, used)) && used == 4 && ({
            let memory = Operand::Memory(
                Memory {
                    components: MemoryComponents::Zero,
                    displacement: None,
                    direct_address: Some(little_endian(bytes[pos + 2], bytes[pos + 3])),
                },
            );
            let register = Operand::Register(
                register_table(field(bytes[pos as int], 8, 1), field(bytes[pos + 1], 3, 3)),
            );
            instruction == if field(bytes[pos as int], 7, 1) == 1 {
                Instruction::mov(register, memory)
            } else {
                Instruction::mov(memory, register)
            }
        }),
{
    classification_by_range(bytes[pos as int]);
    field_closed_forms(bytes[pos as int]);
    field_closed_forms(bytes[pos + 1]);
}

/// Decoding is a function of the instruction's own bytes: where two
/// streams hold the same bytes at two positions, for the length of the
/// instruction found in the first, the second decodes to the same
/// instruction of the same length. In particular, decoding the same bytes
/// again gives the same result.
pub proof fn decoding_depends_on_own_bytes(a: Seq<u8>, p: usize, b: Seq<u8>, q: usize)
    requires
        a.len() <= usize::MAX,
        b.len() <= usize::MAX,
        decoding(a, p) matches Ok((instruction, used)) && q + used <= b.len() && (forall|k: int|
            p <= k < p + used <= a.len() ==> #[trigger] a[k] == b[k - p + q]),
    ensures
        decoding(b, q) == decoding(a, p),
{
    decoding_succeeds_iff(a, p);
    decoding_succeeds_iff(b, q);
    let used = decoding(a, p)->Ok_0.1;
    assert(a[p + 0] == b[p + 0 - p + q]);
    assert(a[p + 1] == b[p + 1 - p + q]);
    assert(2 < used ==> a[p + 2] == b[p + 2 - p + q]);
    assert(3 < used ==> a[p + 3] == b[p + 3 - p + q]);
    assert(4 < used ==> a[p + 4] == b[p + 4 - p + q]);
    assert(5 < used ==> a[p + 5] == b[p + 5 - p + q]);
}

/// Every entry of the register table carries its canonical name: AL, CL,
/// DL, BL, AH, CH, DH, BH for the byte registers 0 to 7 and AX, CX, DX, BX,
/// SP, BP, SI, DI for the word registers.
pub proof fn register_table_names()
    ensures
        register_name(register_table(0, 0)) == "AL"@,
        register_name(register_table(0, 1)) == "CL"@,
        register_name(register_table(0, 2)) == "DL"@,
        register_name(register_table(0, 3)) == "BL"@,
        register_name(register_table(0, 4)) == "AH"@,
        register_name(register_table(0, 5)) == "CH"@,
        register_name(register_table(0, 6)) == "DH"@,
        register_name(register_table(0, 7)) == "BH"@,
        register_name(register_table(1, 0)) == "AX"@,
        register_name(register_table(1, 1)) == "CX"@,
        register_name(register_table(1, 2)) == "DX"@,
        register_name(register_table(1, 3)) == "BX"@,
        register_name(register_table(1, 4)) == "SP"@,
        register_name(register_table(1, 5)) == "BP"@,
        register_name(register_table(1, 6)) == "SI"@,
        register_name(register_table(1, 7)) == "DI"@,
{
}

/// The accumulator forms move between a 16-bit address and AL (`w` = 0)
/// or AX (`w` = 1), and occupy three bytes.
pub proof fn accumulator_forms(bytes: Seq<u8>, pos: usize)
    requires
        pos + 3 <= bytes.len() <= usize::MAX,
        Format::MemoryToAccumulator.accepts(bytes[pos as int])
            || Format::AccumulatorToMemory.accepts(bytes[pos as int]),
    ensures
        decoding(bytes, pos) matches Ok((instruction, used)) && used == 3 && ({
            let accumulator = Operand::Register(
                if bytes[pos as int] % 2 == 0 {
                    Register::Al
                } else {
                    Register::Ax
                },
            );
            let memory = Operand::Memory(
                Memory::direct(little_endian(bytes[pos + 1], bytes[pos + 2])),
            );
            instruction == if Format::MemoryToAccumulator.accepts(bytes[pos as int]) {
                Instruction::mov(accumulator, memory)
            } else {
                Instruction::mov(memory, accumulator)
            }
        }),
{
    classification_by_range(bytes[pos as int]);
    field_closed_forms(bytes[pos as int]);
}

/// The two classifiers agree: the octal digits of a byte select a MOV
/// exactly where the byte opens one of the known encodings.
pub proof fn opcode_agrees_with_classification(byte: u8)
    ensures
        opcode_table(field(byte, 1, 2), field(byte, 3, 3), field(byte, 6, 3)) == OpCode::Mov
            <==> classification(byte) is Some,
        opcode_table(field(byte, 1, 2), field(byte, 3, 3), field(byte, 6, 3)) == OpCode::Other
            <==> classification(byte) is None,
{
    field_closed_forms(byte);
    assert(64 * (byte / 64) + 8 * ((byte / 8) % 8) + byte % 8 == byte);
}

/// Every first byte of the register/memory format has the octal digits of
/// a MOV opcode.
pub proof fn register_memory_bytes_are_mov_opcodes(byte: u8)
    requires
        Format::RegisterMemory.accepts(byte),
    ensures
        opcode_table(field(byte, 1, 2), field(byte, 3, 3), field(byte, 6, 3)) == OpCode::Mov,
{
    opcode_agrees_with_classification(byte);
    patterns_exclusive(byte, Format::RegisterMemory, Format::RegisterMemory);
}

/// The tail of a stream decodes as the stream that it is: where `b`
/// decodes without failure from `q` on, so does `a` followed by `b` from
/// the same place in `b`, to the same instructions.
pub proof fn listing_of_tail(a: Seq<u8>, b: Seq<u8>, q: usize)
    requires
        a.len() + b.len() <= usize::MAX,
        q <= b.len(),
        listing(b, q) is Ok,
    ensures
        listing(a + b, (a.len() + q) as usize) == listing(b, q),
    decreases b.len() - q,
{
    let whole = a + b;
    let p = (a.len() + q) as usize;
    if q < b.len() {
        decoding_succeeds_iff(b, q);
        let used = decoding(b, q)->Ok_0.1;
        assert forall|k: int| q <= k < q + used <= b.len() implies #[trigger] b[k] == whole[k - q
            + p] by {}
        decoding_depends_on_own_bytes(b, q, whole, p);
        assert(stepping(whole, p) == (Step::Emitted {
            instruction: decoding(b, q)->Ok_0.0,
            next: (p + used) as usize,
        }));
        listing_of_tail(a, b, (q + used) as usize);
    }
}

/// Streams compose: where `a` and `b` each decode without failure, `a`
/// followed by `b` decodes to the instructions of `a` followed by those
/// of `b`. Each instruction leaves the position on the first byte of the
/// next, so the boundary between the two streams is found again.
pub proof fn listing_of_concatenation(a: Seq<u8>, b: Seq<u8>, pos: usize)
    requires
        a.len() + b.len() <= usize::MAX,
        pos <= a.len(),
        listing(a, pos) is Ok,
        listing(b, 0) is Ok,
    ensures
        listing(a + b, pos) == Ok::<Seq<Instruction>, DecodeError>(
            listing(a, pos)->Ok_0 + listing(b, 0)->Ok_0,
        ),
    decreases a.len() - pos,
{
    let whole = a + b;
    if pos < a.len() {
        decoding_succeeds_iff(a, pos);
        let instruction = decoding(a, pos)->Ok_0.0;
        let used = decoding(a, pos)->Ok_0.1;
        assert forall|k: int| pos <= k < pos + used <= a.len() implies #[trigger] a[k] == whole[k
            - pos + pos] by {}
        decoding_depends_on_own_bytes(a, pos, whole, pos);
        let next = (pos + used) as usize;
        listing_of_concatenation(a, b, next);
        assert(seq![instruction] + (listing(a, next)->Ok_0 + listing(b, 0)->Ok_0) =~= (
        seq![instruction] + listing(a, next)->Ok_0) + listing(b, 0)->Ok_0);
    } else {
        listing_of_tail(a, b, 0);
        assert(Seq::<Instruction>::empty() + listing(b, 0)->Ok_0 =~= listing(b, 0)->Ok_0);
    }
}

} // verus!
