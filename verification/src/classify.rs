//! Classification of a first instruction byte by its leading bits.

use crate::bits::{extract, field};
use vstd::prelude::*;

verus! {

/// The five encodings of MOV that the decoder knows, in the order in which
/// their leading bits are tested.
#[derive(Clone, Copy, Debug, PartialEq, Eq, Structural)]
pub enum Format {
    /// `1011 w reg`: immediate to register.
    ImmediateToRegister,
    /// `100010 d w`: register or memory to or from register.
    RegisterMemory,
    /// `1100011 w`: immediate to register or memory.
    ImmediateToRegisterMemory,
    /// `1010000 w`: memory to accumulator.
    MemoryToAccumulator,
    /// `1010001 w`: accumulator to memory.
    AccumulatorToMemory,
}

impl Format {
    /// Number of leading bits that identify the format.
    pub open spec fn prefix_len(self) -> int {
        match self {
            Format::ImmediateToRegister => 4,
            Format::RegisterMemory => 6,
            _ => 7,
        }
    }

    /// The value of those leading bits.
    pub open spec fn prefix_bits(self) -> int {
        match self {
            Format::ImmediateToRegister => 0b1011,
            Format::RegisterMemory => 0b100010,
            Format::ImmediateToRegisterMemory => 0b1100011,
            Format::MemoryToAccumulator => 0b1010000,
            Format::AccumulatorToMemory => 0b1010001,
        }
    }

    /// Whether the leading bits of `byte` are those of this format.
    pub open spec fn accepts(self, byte: u8) -> bool {
        field(byte, 1, self.prefix_len()) == self.prefix_bits()
    }

    /// The format at a place of the precedence order, 0 first.
    pub open spec fn at(rank: int) -> Format {
        if rank == 0 {
            Format::ImmediateToRegister
        } else if rank == 1 {
            Format::RegisterMemory
        } else if rank == 2 {
            Format::ImmediateToRegisterMemory
        } else if rank == 3 {
            Format::MemoryToAccumulator
        } else {
            Format::AccumulatorToMemory
        }
    }

    /// The entry of the pattern table for this format: how many leading
    /// bits to compare, and with what.
    pub fn pattern(self) -> (entry: (u8, u8))
        ensures
            entry.0 == self.prefix_len(),
            entry.1 == self.prefix_bits(),
    {
        match self {
            Format::ImmediateToRegister => (4, 0b1011),
            Format::RegisterMemory => (6, 0b100010),
            Format::ImmediateToRegisterMemory => (7, 0b1100011),
            Format::MemoryToAccumulator => (7, 0b1010000),
            Format::AccumulatorToMemory => (7, 0b1010001),
        }
    }

    /// Tests the leading bits of `byte` against this format's pattern.
    pub fn matches_byte(self, byte: u8) -> (hit: bool)
        ensures
            hit == self.accepts(byte),
    {
        let (len, bits) = self.pattern();
        extract(byte, 1, len) == bits
    }

    /// The format at a place of the precedence order, 0 first.
    pub fn by_rank(rank: u8) -> (format: Format)
        requires
            rank < 5,
        ensures
            format == Format::at(rank as int),
    {
        match rank {
            0 => Format::ImmediateToRegister,
            1 => Format::RegisterMemory,
            2 => Format::ImmediateToRegisterMemory,
            3 => Format::MemoryToAccumulator,
            _ => Format::AccumulatorToMemory,
        }
    }
}

/// The first format, in precedence order from `rank` on, whose pattern the
/// byte carries.
pub open spec fn first_match(byte: u8, rank: int) -> Option<Format>
    decreases 5 - rank,
{
    if rank < 0 || rank >= 5 {
        None
    } else if Format::at(rank).accepts(byte) {
        Some(Format::at(rank))
    } else {
        first_match(byte, rank + 1)
    }
}

/// The format that a first byte selects, if any.
pub open spec fn classification(byte: u8) -> Option<Format> {
    first_match(byte, 0)
}

/// Classifies a first instruction byte: the patterns are tried in precedence
/// order and the first that fits decides. `None` means that the byte opens
/// no instruction that the decoder knows.
pub fn classify(byte: u8) -> (format: Option<Format>)
    ensures
        format == classification(byte),
        format matches Some(f) ==> f.accepts(byte),
        format is None ==> forall|f: Format| !f.accepts(byte),
{
    let mut rank: u8 = 0;
    while rank < 5
        invariant
            rank <= 5,
            classification(byte) == first_match(byte, rank as int),
            forall|k: int| 0 <= k < rank ==> !(#[trigger] Format::at(k)).accepts(byte),
        decreases 5 - rank,
    {
        let candidate = Format::by_rank(rank);
        if candidate.matches_byte(byte) {
            return Some(candidate);
        }
        rank = rank + 1;
    }
    proof {
        assert forall|f: Format| !f.accepts(byte) by {
            let k: int = match f {
                Format::ImmediateToRegister => 0,
                Format::RegisterMemory => 1,
                Format::ImmediateToRegisterMemory => 2,
                Format::MemoryToAccumulator => 3,
                Format::AccumulatorToMemory => 4,
            };
            assert(Format::at(k) == f);
        }
    }
    None
}

/// The classification in closed form, by the range in which the byte lies.
pub proof fn classification_by_range(byte: u8)
    ensures
        classification(byte) == (if 0xB0 <= byte <= 0xBF {
            Some(Format::ImmediateToRegister)
        } else if 0x88 <= byte <= 0x8B {
            Some(Format::RegisterMemory)
        } else if 0xC6 <= byte <= 0xC7 {
            Some(Format::ImmediateToRegisterMemory)
        } else if 0xA0 <= byte <= 0xA1 {
            Some(Format::MemoryToAccumulator)
        } else if 0xA2 <= byte <= 0xA3 {
            Some(Format::AccumulatorToMemory)
        } else {
            None
        }),
{
    reveal_with_fuel(first_match, 6);
}

/// No byte carries the pattern of two formats, so the precedence order
/// never has to break a tie.
pub proof fn patterns_exclusive(byte: u8, f: Format, g: Format)
    requires
        f.accepts(byte),
        g.accepts(byte),
    ensures
        f == g,
        classification(byte) == Some(f),
{
    classification_by_range(byte);
}

} // verus!
