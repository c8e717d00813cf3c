//! The text of operands and instructions, as an assembler would read it.

use crate::instruction::{Instruction, Mnemonic};
use crate::operand::{Memory, Operand};
use crate::tables::{MemoryComponents, Register};
use vstd::prelude::*;
use vstd::string::*;

verus! {

/// The canonical two-letter name of a register.
pub open spec fn register_name(register: Register) -> Seq<char> {
    match register {
        Register::Al => "AL"@,
        Register::Bl => "BL"@,
        Register::Cl => "CL"@,
        Register::Dl => "DL"@,
        Register::Ah => "AH"@,
        Register::Bh => "BH"@,
        Register::Ch => "CH"@,
        Register::Dh => "DH"@,
        Register::Ax => "AX"@,
        Register::Bx => "BX"@,
        Register::Cx => "CX"@,
        Register::Dx => "DX"@,
        Register::Sp => "SP"@,
        Register::Bp => "BP"@,
        Register::Si => "SI"@,
        Register::Di => "DI"@,
        Register::Es => "ES"@,
        Register::Cs => "CS"@,
        Register::Ss => "SS"@,
        Register::Ds => "DS"@,
    }
}

/// The character of a digit below sixteen, letters in upper case.
pub open spec fn digit_text(digit: int) -> Seq<char> {
    if digit == 0 {
        "0"@
    } else if digit == 1 {
        "1"@
    } else if digit == 2 {
        "2"@
    } else if digit == 3 {
        "3"@
    } else if digit == 4 {
        "4"@
    } else if digit == 5 {
        "5"@
    } else if digit == 6 {
        "6"@
    } else if digit == 7 {
        "7"@
    } else if digit == 8 {
        "8"@
    } else if digit == 9 {
        "9"@
    } else if digit == 10 {
        "A"@
    } else if digit == 11 {
        "B"@
    } else if digit == 12 {
        "C"@
    } else if digit == 13 {
        "D"@
    } else if digit == 14 {
        "E"@
    } else {
        "F"@
    }
}

/// A natural number in decimal, without leading zeros.
pub open spec fn decimal_text(n: nat) -> Seq<char>
    decreases n,
{
    if n < 10 {
        digit_text(n as int)
    } else {
        decimal_text(n / 10) + digit_text((n % 10) as int)
    }
}

/// An integer in decimal, with a minus sign where it is negative.
pub open spec fn signed_text(value: int) -> Seq<char> {
    if value < 0 {
        "-"@ + decimal_text((-value) as nat)
    } else {
        decimal_text(value as nat)
    }
}

/// A 16-bit address as `0x` and four hexadecimal digits.
pub open spec fn address_text(address: u16) -> Seq<char> {
    "0x"@ + digit_text(address as int / 4096) + digit_text((address as int / 256) % 16)
        + digit_text((address as int / 16) % 16) + digit_text(address as int % 16)
}

/// The registers of an effective address, joined by ` + `.
pub open spec fn components_text(components: MemoryComponents) -> Seq<char> {
    match components {
        MemoryComponents::Zero => Seq::empty(),
        MemoryComponents::One(first) => register_name(first),
        MemoryComponents::Two(first, second) => register_name(first) + " + "@ + register_name(
            second,
        ),
    }
}

/// A memory operand in square brackets: the absolute address, or the
/// registers followed by ` + ` and the displacement where there is one.
pub open spec fn memory_text(memory: Memory) -> Seq<char> {
    match memory.direct_address {
        Some(address) => "["@ + address_text(address) + "]"@,
        None => match memory.displacement {
            Some(displacement) => "["@ + components_text(memory.components) + " + "@ + signed_text(
                displacement as int,
            ) + "]"@,
            None => "["@ + components_text(memory.components) + "]"@,
        },
    }
}

/// An operand: a register by its name, a memory operand in brackets, an
/// immediate in decimal.
pub open spec fn operand_text(operand: Operand) -> Seq<char> {
    match operand {
        Operand::Register(register) => register_name(register),
        Operand::Memory(memory) => memory_text(memory),
        Operand::Immediate { value, width } => signed_text(value as int),
    }
}

/// The name of an operation.
pub open spec fn mnemonic_text(mnemonic: Mnemonic) -> Seq<char> {
    match mnemonic {
        Mnemonic::Mov => "MOV"@,
    }
}

/// An instruction: the operation, the destination, a comma, the source.
pub open spec fn instruction_text(instruction: Instruction) -> Seq<char> {
    mnemonic_text(instruction.mnemonic) + " "@ + operand_text(instruction.destination) + ", "@
        + operand_text(instruction.source)
}

impl Register {
    /// The canonical two-letter name of the register.
    pub fn name(self) -> (text: &'static str)
        ensures
            text@ == register_name(self),
    {
        match self {
            Register::Al => "AL",
            Register::Bl => "BL",
            Register::Cl => "CL",
            Register::Dl => "DL",
            Register::Ah => "AH",
            Register::Bh => "BH",
            Register::Ch => "CH",
            Register::Dh => "DH",
            Register::Ax => "AX",
            Register::Bx => "BX",
            Register::Cx => "CX",
            Register::Dx => "DX",
            Register::Sp => "SP",
            Register::Bp => "BP",
            Register::Si => "SI",
            Register::Di => "DI",
            Register::Es => "ES",
            Register::Cs => "CS",
            Register::Ss => "SS",
            Register::Ds => "DS",
        }
    }
}

fn digit(value: u32) -> (text: &'static str)
    requires
        value < 16,
    ensures
        text@ == digit_text(value as int),
{
    match value {
        0 => "0",
        1 => "1",
        2 => "2",
        3 => "3",
        4 => "4",
        5 => "5",
        6 => "6",
        7 => "7",
        8 => "8",
        9 => "9",
        10 => "A",
        11 => "B",
        12 => "C",
        13 => "D",
        14 => "E",
        _ => "F",
    }
}

/// Writes a natural number in decimal.
pub fn render_decimal(n: u32) -> (text: String)
    ensures
        text@ == decimal_text(n as nat),
    decreases n,
{
    if n < 10 {
        String::from_str(digit(n))
    } else {
        let mut text = render_decimal(n / 10);
        text.append(digit(n % 10));
        text
    }
}

/// Writes a 16-bit signed number in decimal.
pub fn render_signed(value: i16) -> (text: String)
    ensures
        text@ == signed_text(value as int),
{
    if value < 0 {
        let magnitude: u32 = (-(value as i32)) as u32;
        let mut text = String::from_str("-");
        let digits = render_decimal(magnitude);
        text.append(digits.as_str());
        text
    } else {
        render_decimal(value as u32)
    }
}

/// Writes a 16-bit address as `0x` and four hexadecimal digits.
pub fn render_address(address: u16) -> (text: String)
    ensures
        text@ == address_text(address),
{
    let a: u32 = address as u32;
    let mut text = String::from_str("0x");
    text.append(digit(a / 4096));
    text.append(digit((a / 256) % 16));
    text.append(digit((a / 16) % 16));
    text.append(digit(a % 16));
    text
}

/// Writes a memory operand.
pub fn render_memory(memory: &Memory) -> (text: String)
    ensures
        text@ == memory_text(*memory),
{
    let mut text = String::from_str("[");
    match memory.direct_address {
        Some(address) => {
            let inner = render_address(address);
            text.append(inner.as_str());
        },
        None => {
            match memory.components {
                MemoryComponents::Zero => {
                    assert(text@ + Seq::<char>::empty() =~= text@);
                },
                MemoryComponents::One(first) => {
                    text.append(first.name());
                },
                MemoryComponents::Two(first, second) => {
                    text.append(first.name());
                    text.append(" + ");
                    text.append(second.name());
                    assert(text@ =~= "["@ + components_text(memory.components));
                },
            }
            match memory.displacement {
                Some(displacement) => {
                    text.append(" + ");
                    let inner = render_signed(displacement);
                    text.append(inner.as_str());
                },
                None => {},
            }
        },
    }
    text.append("]");
    text
}

/// Writes an operand.
pub fn render_operand(operand: &Operand) -> (text: String)
    ensures
        text@ == operand_text(*operand),
{
    match operand {
        Operand::Register(register) => String::from_str(register.name()),
        Operand::Memory(memory) => render_memory(memory),
        Operand::Immediate { value, width } => render_signed(*value),
    }
}

/// Writes an instruction as one line of assembly text, destination first.
pub fn render_instruction(instruction: &Instruction) -> (text: String)
    ensures
        text@ == instruction_text(*instruction),
{
    let mut text = match instruction.mnemonic {
        Mnemonic::Mov => String::from_str("MOV"),
    };
    text.append(" ");
    let destination = render_operand(&instruction.destination);
    text.append(destination.as_str());
    text.append(", ");
    let source = render_operand(&instruction.source);
    text.append(source.as_str());
    text
}

/// Writes every instruction of a listing, one line each, in order.
pub fn render_listing(instructions: &Vec<Instruction>) -> (lines: Vec<String>)
    ensures
        lines@.len() == instructions@.len(),
        forall|i: int|
            0 <= i < lines@.len() ==> (#[trigger] lines@[i])@ == instruction_text(instructions@[i]),
{
    let mut lines: Vec<String> = Vec::new();
    let mut i: usize = 0;
    while i < instructions.len()
        invariant
            i <= instructions@.len(),
            lines@.len() == i,
            forall|k: int|
                0 <= k < i ==> (#[trigger] lines@[k])@ == instruction_text(instructions@[k]),
        decreases instructions@.len() - i,
    {
        lines.push(render_instruction(&instructions[i]));
        i = i + 1;
    }
    lines
}

} // verus!
