//! The lookup tables of the 8086 encoding: registers, addressing modes and
//! effective-address components.

use crate::classify::{classification, classify};
use vstd::prelude::*;

verus! {

/// Operand size selected by the `w` bit.
#[derive(Clone, Copy, Debug, PartialEq, Eq, Structural)]
pub enum Width {
    Byte,
    Word,
}

/// A register of the 8086: eight byte registers, eight word registers and
/// four segment registers.
#[derive(Clone, Copy, Debug, PartialEq, Eq, Structural)]
pub enum Register {
    Al,
    Bl,
    Cl,
    Dl,
    Ah,
    Bh,
    Ch,
    Dh,
    Ax,
    Bx,
    Cx,
    Dx,
    Sp,
    Bp,
    Si,
    Di,
    Es,
    Cs,
    Ss,
    Ds,
}

/// What the opcode digits of a first byte select.
#[derive(Clone, Copy, Debug, PartialEq, Eq, Structural)]
pub enum OpCode {
    Mov,
    Other,
}

/// Addressing mode selected by the `mod` field: memory with the field's
/// value (0, 1 or 2), or register-direct.
#[derive(Clone, Copy, Debug, PartialEq, Eq, Structural)]
pub enum Mode {
    MemMode(u8),
    RegMode,
}

/// Size of the displacement that follows the addressing byte.
#[derive(Clone, Copy, Debug, PartialEq, Eq, Structural)]
pub enum Displacement {
    D8,
    D16,
}

/// The base and index registers that form an effective address.
#[derive(Clone, Copy, Debug, PartialEq, Eq, Structural)]
pub enum MemoryComponents {
    Zero,
    One(Register),
    Two(Register, Register),
}

impl Width {
    /// Number of bytes that an immediate of this width occupies.
    pub open spec fn size(self) -> int {
        match self {
            Width::Byte => 1,
            Width::Word => 2,
        }
    }

    /// The width that a `w` bit selects.
    pub open spec fn of_bit(w: int) -> Width {
        if w == 0 {
            Width::Byte
        } else {
            Width::Word
        }
    }

    /// The `w` bit that selects this width.
    pub open spec fn bit(self) -> int {
        match self {
            Width::Byte => 0,
            Width::Word => 1,
        }
    }

    /// The width that a `w` bit selects.
    pub fn from_bit(w: u8) -> (width: Width)
        requires
            w <= 1,
        ensures
            width == Width::of_bit(w as int),
            width.bit() == w,
    {
        if w == 0 {
            Width::Byte
        } else {
            Width::Word
        }
    }

    /// The `w` bit that selects this width.
    pub fn to_bit(self) -> (w: u8)
        ensures
            w == self.bit(),
    {
        match self {
            Width::Byte => 0,
            Width::Word => 1,
        }
    }

    /// Number of bytes that an immediate of this width occupies.
    pub fn byte_count(self) -> (n: usize)
        ensures
            n == self.size(),
    {
        match self {
            Width::Byte => 1,
            Width::Word => 2,
        }
    }
}

impl Register {
    /// The width of a general register; `None` for a segment register.
    pub open spec fn width(self) -> Option<Width> {
        match self {
            Register::Al
            | Register::Bl
            | Register::Cl
            | Register::Dl
            | Register::Ah
            | Register::Bh
            | Register::Ch
            | Register::Dh => Some(Width::Byte),
            Register::Ax
            | Register::Bx
            | Register::Cx
            | Register::Dx
            | Register::Sp
            | Register::Bp
            | Register::Si
            | Register::Di => Some(Width::Word),
            _ => None,
        }
    }

    /// Whether this is one of the sixteen general registers.
    pub open spec fn is_general(self) -> bool {
        self.width() is Some
    }
}

/// The general register with the given `w` bit and 3-bit code.
pub open spec fn register_table(word: int, reg: int) -> Register {
    if word == 0 {
        if reg == 0 {
            Register::Al
        } else if reg == 1 {
            Register::Cl
        } else if reg == 2 {
            Register::Dl
        } else if reg == 3 {
            Register::Bl
        } else if reg == 4 {
            Register::Ah
        } else if reg == 5 {
            Register::Ch
        } else if reg == 6 {
            Register::Dh
        } else {
            Register::Bh
        }
    } else {
        if reg == 0 {
            Register::Ax
        } else if reg == 1 {
            Register::Cx
        } else if reg == 2 {
            Register::Dx
        } else if reg == 3 {
            Register::Bx
        } else if reg == 4 {
            Register::Sp
        } else if reg == 5 {
            Register::Bp
        } else if reg == 6 {
            Register::Si
        } else {
            Register::Di
        }
    }
}

/// The segment register with the given 2-bit code.
pub open spec fn segment_table(seg: int) -> Register {
    if seg == 0 {
        Register::Es
    } else if seg == 1 {
        Register::Cs
    } else if seg == 2 {
        Register::Ss
    } else {
        Register::Ds
    }
}

/// The first register of the effective address that an r/m code selects.
pub open spec fn memory1_table(mem: int) -> Register {
    if mem == 0 || mem == 1 || mem == 7 {
        Register::Bx
    } else if mem == 2 || mem == 3 || mem == 6 {
        Register::Bp
    } else if mem == 4 {
        Register::Si
    } else {
        Register::Di
    }
}

/// The index register that an r/m code adds to the first one, if any.
pub open spec fn memory2_table(mode: int, mem: int) -> Option<Register> {
    if 0 <= mode <= 2 && (mem == 0 || mem == 2) {
        Some(Register::Si)
    } else if 0 <= mode <= 2 && (mem == 1 || mem == 3) {
        Some(Register::Di)
    } else {
        None
    }
}

/// The registers that an r/m code combines into an effective address.
pub open spec fn effective_address_table(rm: int) -> MemoryComponents {
    if rm == 0 {
        MemoryComponents::Two(Register::Bx, Register::Si)
    } else if rm == 1 {
        MemoryComponents::Two(Register::Bx, Register::Di)
    } else if rm == 2 {
        MemoryComponents::Two(Register::Bp, Register::Si)
    } else if rm == 3 {
        MemoryComponents::Two(Register::Bp, Register::Di)
    } else if rm == 4 {
        MemoryComponents::One(Register::Si)
    } else if rm == 5 {
        MemoryComponents::One(Register::Di)
    } else if rm == 6 {
        MemoryComponents::One(Register::Bp)
    } else {
        MemoryComponents::One(Register::Bx)
    }
}

/// The opcode that three octal digits of a first byte select: a MOV where
/// the byte that they spell carries the leading bits of one of the known
/// encodings, and nothing that the decoder knows otherwise. Digits that
/// spell no byte select nothing.
pub open spec fn opcode_table(op1: int, op2: int, op3: int) -> OpCode {
    if 0 <= op1 <= 3 && 0 <= op2 <= 7 && 0 <= op3 <= 7 && classification(
        (64 * op1 + 8 * op2 + op3) as u8,
    ) is Some {
        OpCode::Mov
    } else {
        OpCode::Other
    }
}

/// The addressing mode that a `mod` field selects.
pub open spec fn mode_table(mode: int) -> Mode {
    if mode == 3 {
        Mode::RegMode
    } else {
        Mode::MemMode(mode as u8)
    }
}

/// The displacement size that an addressing mode asks for.
pub open spec fn displacement_table(mode: Mode) -> Option<Displacement> {
    match mode {
        Mode::MemMode(1) => Some(Displacement::D8),
        Mode::MemMode(2) => Some(Displacement::D16),
        _ => None,
    }
}

/// Mapping from three octal digits to the opcode.
pub fn get_opcode(op1: &u8, op2: &u8, op3: &u8) -> (opcode: OpCode)
    ensures
        opcode == opcode_table(*op1 as int, *op2 as int, *op3 as int),
{
    if *op1 <= 3 && *op2 <= 7 && *op3 <= 7 {
        let byte: u8 = 64 * *op1 + 8 * *op2 + *op3;
        match classify(byte) {
            Some(_) => OpCode::Mov,
            None => OpCode::Other,
        }
    } else {
        OpCode::Other
    }
}

/// The addressing mode for the bits in the `mod` position.
pub fn get_mode(mod_: &u8) -> (mode: Mode)
    requires
        *mod_ <= 3,
    ensures
        mode == mode_table(*mod_ as int),
        *mod_ == 3 <==> mode == Mode::RegMode,
        *mod_ <= 2 <==> mode == Mode::MemMode(*mod_),
{
    if *mod_ == 3 {
        Mode::RegMode
    } else {
        Mode::MemMode(*mod_)
    }
}

/// The general register for a `w` bit and the `reg` field.
pub fn get_register(word: &u8, reg: &u8) -> (register: Register)
    requires
        *word <= 1,
        *reg <= 7,
    ensures
        register == register_table(*word as int, *reg as int),
        register.width() == Some(Width::of_bit(*word as int)),
{
    match (*word, *reg) {
        (0, 0) => Register::Al,
        (0, 1) => Register::Cl,
        (0, 2) => Register::Dl,
        (0, 3) => Register::Bl,
        (0, 4) => Register::Ah,
        (0, 5) => Register::Ch,
        (0, 6) => Register::Dh,
        (0, 7) => Register::Bh,
        (_, 0) => Register::Ax,
        (_, 1) => Register::Cx,
        (_, 2) => Register::Dx,
        (_, 3) => Register::Bx,
        (_, 4) => Register::Sp,
        (_, 5) => Register::Bp,
        (_, 6) => Register::Si,
        (_, _) => Register::Di,
    }
}

/// The segment register for a 2-bit code.
pub fn get_segment(seg: &u8) -> (register: Register)
    requires
        *seg <= 3,
    ensures
        register == segment_table(*seg as int),
        !register.is_general(),
{
    match *seg {
        0 => Register::Es,
        1 => Register::Cs,
        2 => Register::Ss,
        _ => Register::Ds,
    }
}

/// The register that the `reg` field names where the last opcode digit is at
/// most 3. Above that the first byte opens no encoding with a register
/// operand, and there is none.
pub fn get_register_or_segment(op3: &u8, word: &u8, reg: &u8) -> (register: Option<Register>)
    requires
        *op3 <= 3 ==> *word <= 1 && *reg <= 7,
    ensures
        *op3 <= 3 ==> register == Some(register_table(*word as int, *reg as int)),
        *op3 > 3 ==> register is None,
{
    if *op3 <= 3 {
        Some(get_register(word, reg))
    } else {
        None
    }
}

/// The first register of the effective address for an r/m code.
pub fn get_memory1(mem: &u8) -> (register: Register)
    requires
        *mem <= 7,
    ensures
        register == memory1_table(*mem as int),
{
    match *mem {
        0 | 1 => Register::Bx,
        2 | 3 => Register::Bp,
        4 => Register::Si,
        5 => Register::Di,
        6 => Register::Bp,
        _ => Register::Bx,
    }
}

/// The index register of the effective address for an r/m code, if the mode
/// is a memory mode and the code has one.
pub fn get_memory2(mod_: &u8, mem: &u8) -> (register: Option<Register>)
    ensures
        register == memory2_table(*mod_ as int, *mem as int),
{
    if *mod_ <= 2 {
        match *mem {
            0 | 2 => Some(Register::Si),
            1 | 3 => Some(Register::Di),
            _ => None,
        }
    } else {
        None
    }
}

/// The register that the r/m field names in register mode, or the first
/// register of its effective address in a memory mode. Mode 0 with code 6
/// is an absolute address and has no register.
pub fn get_register_or_mem1(mod_: &Mode, word: &u8, mem: &u8) -> (register: Option<Register>)
    requires
        *mem <= 7,
        *mod_ == Mode::RegMode ==> *word <= 1,
    ensures
        *mod_ == Mode::RegMode ==> register == Some(register_table(*word as int, *mem as int)),
        *mod_ == Mode::MemMode(0) && *mem == 6 ==> register is None,
        *mod_ != Mode::RegMode && !(*mod_ == Mode::MemMode(0) && *mem == 6) ==> register == Some(
            memory1_table(*mem as int),
        ),
{
    match mod_ {
        Mode::MemMode(mode) => {
            if is_direct_address(*mode, *mem) {
                None
            } else {
                Some(get_memory1(mem))
            }
        },
        Mode::RegMode => Some(get_register(word, mem)),
    }
}

/// The size of the displacement that follows the addressing byte.
pub fn get_displacement(mod_: &Mode) -> (displacement: Option<Displacement>)
    ensures
        displacement == displacement_table(*mod_),
{
    match mod_ {
        Mode::MemMode(1) => Some(Displacement::D8),
        Mode::MemMode(2) => Some(Displacement::D16),
        _ => None,
    }
}

/// Register table: the general register of the given width with the given
/// 3-bit code.
pub fn lookup_register(width: Width, code: u8) -> (register: Register)
    requires
        code <= 7,
    ensures
        register == register_table(width.bit(), code as int),
        register.width() == Some(width),
{
    let word: u8 = width.to_bit();
    get_register(&word, &code)
}

/// Effective-address table: the registers that an r/m code combines.
pub fn lookup_effective_address(rm_code: u8) -> (components: MemoryComponents)
    requires
        rm_code <= 7,
    ensures
        components == effective_address_table(rm_code as int),
{
    let first = get_memory1(&rm_code);
    let mode: u8 = 0;
    match get_memory2(&mode, &rm_code) {
        Some(second) => MemoryComponents::Two(first, second),
        None => MemoryComponents::One(first),
    }
}

/// Whether the r/m field stands for an absolute address instead of an entry
/// of the effective-address table: mode 0 with code 6 only.
pub open spec fn direct_address_case(mode: int, rm: int) -> bool {
    mode == 0 && rm == 6
}

/// Whether the r/m field stands for an absolute 16-bit address.
pub fn is_direct_address(mode: u8, rm_code: u8) -> (direct: bool)
    ensures
        direct == direct_address_case(mode as int, rm_code as int),
{
    mode == 0 && rm_code == 6
}

/// The effective-address table is the pairing of its two halves: the first
/// register of every entry is `memory1_table`, and the entry has a second
/// register exactly where `memory2_table` gives one.
pub proof fn effective_address_splits(rm: int)
    requires
        0 <= rm <= 7,
    ensures
        match memory2_table(0, rm) {
            Some(second) => effective_address_table(rm) == MemoryComponents::Two(
                memory1_table(rm),
                second,
            ),
            None => effective_address_table(rm) == MemoryComponents::One(memory1_table(rm)),
        },
{
}

/// The register table is one-to-one: two different (width, code) pairs never
/// name the same register, and no entry is a segment register.
pub proof fn register_table_injective(w1: int, c1: int, w2: int, c2: int)
    requires
        0 <= w1 <= 1,
        0 <= w2 <= 1,
        0 <= c1 <= 7,
        0 <= c2 <= 7,
        register_table(w1, c1) == register_table(w2, c2),
    ensures
        w1 == w2,
        c1 == c2,
        register_table(w1, c1).width() == Some(Width::of_bit(w1)),
{
}

} // verus!
