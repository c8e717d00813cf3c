use mov_decoder::bits::{byte_to_octal, extract, Oct};
use mov_decoder::classify::classify;
use mov_decoder::tables::{
    get_displacement, get_memory1, get_memory2, get_mode, get_opcode, get_register,
    get_register_or_mem1, get_register_or_segment, get_segment, is_direct_address,
    lookup_effective_address, lookup_register, Displacement, MemoryComponents, Mode, OpCode,
    Register, Width,
};

#[test]
fn extract_reads_fields_from_the_most_significant_bit() {
    assert_eq!(extract(0b1011_0100, 1, 4), 0b1011);
    assert_eq!(extract(0b1011_0100, 5, 1), 0);
    assert_eq!(extract(0b1011_0100, 6, 3), 0b100);
    assert_eq!(extract(0b1000_1001, 7, 1), 0);
    assert_eq!(extract(0b1000_1001, 8, 1), 1);
    assert_eq!(extract(0b0100_1110, 1, 2), 0b01);
    assert_eq!(extract(0b0100_1110, 3, 3), 0b001);
    assert_eq!(extract(0b0100_1110, 6, 3), 0b110);
}

#[test]
fn extract_of_the_whole_byte_is_the_byte() {
    assert_eq!(extract(0xFF, 1, 8), 0xFF);
    assert_eq!(extract(0xA7, 1, 8), 0xA7);
    assert_eq!(extract(0x00, 1, 8), 0x00);
}

#[test]
fn extract_single_bits() {
    let byte: u8 = 0b1010_0101;
    let expected: [u8; 8] = [1, 0, 1, 0, 0, 1, 0, 1];
    for bit in 1..=8u8 {
        assert_eq!(extract(byte, bit, 1), expected[(bit - 1) as usize]);
    }
}

#[test]
fn octal_digits_of_a_byte() {
    assert_eq!(byte_to_octal(0o211), Oct(2, 1, 1));
    assert_eq!(byte_to_octal(0o377), Oct(3, 7, 7));
    assert_eq!(byte_to_octal(0), Oct(0, 0, 0));
    assert_eq!(byte_to_octal(0b11_011_001), Oct(3, 3, 1));
}

#[test]
fn octal_digits_rebuild_the_byte() {
    for byte in 0..=255u8 {
        let Oct(a, b, c) = byte_to_octal(byte);
        assert_eq!(64 * (a as u32) + 8 * (b as u32) + (c as u32), byte as u32);
    }
}

#[test]
fn opcode_digits_of_the_register_memory_form_are_mov() {
    for last in 0..=3u8 {
        assert_eq!(get_opcode(&2, &1, &last), OpCode::Mov);
    }
    for last in 4..=7u8 {
        assert_eq!(get_opcode(&2, &1, &last), OpCode::Other);
    }
    assert_eq!(get_opcode(&2, &0, &7), OpCode::Other);
    assert_eq!(get_opcode(&0, &0, &0), OpCode::Other);
}

#[test]
fn opcode_digits_of_the_immediate_forms_are_mov() {
    for last in 0..=7u8 {
        assert_eq!(get_opcode(&2, &6, &last), OpCode::Mov);
        assert_eq!(get_opcode(&2, &7, &last), OpCode::Mov);
    }
    assert_eq!(get_opcode(&3, &0, &6), OpCode::Mov);
    assert_eq!(get_opcode(&3, &0, &7), OpCode::Mov);
    assert_eq!(get_opcode(&3, &0, &5), OpCode::Other);
    assert_eq!(get_opcode(&3, &1, &0), OpCode::Other);
}

#[test]
fn opcode_digits_of_the_accumulator_forms_are_mov() {
    for last in 0..=3u8 {
        assert_eq!(get_opcode(&2, &4, &last), OpCode::Mov);
    }
    for last in 4..=7u8 {
        assert_eq!(get_opcode(&2, &4, &last), OpCode::Other);
    }
}

#[test]
fn opcode_digits_agree_with_the_classifier() {
    let mut movs = 0;
    for byte in 0..=255u8 {
        let Oct(a, b, c) = byte_to_octal(byte);
        let expected = if classify(byte).is_some() { OpCode::Mov } else { OpCode::Other };
        assert_eq!(get_opcode(&a, &b, &c), expected);
        if expected == OpCode::Mov {
            movs += 1;
        }
    }
    assert_eq!(movs, 26);
}

#[test]
fn opcode_of_large_digits_is_other() {
    assert_eq!(get_opcode(&3, &7, &7), OpCode::Other);
    assert_eq!(get_opcode(&4, &0, &0), OpCode::Other);
    assert_eq!(get_opcode(&2, &8, &1), OpCode::Other);
    assert_eq!(get_opcode(&2, &1, &8), OpCode::Other);
    assert_eq!(get_opcode(&255, &255, &255), OpCode::Other);
}

#[test]
fn mode_of_the_mod_field() {
    assert_eq!(get_mode(&0), Mode::MemMode(0));
    assert_eq!(get_mode(&1), Mode::MemMode(1));
    assert_eq!(get_mode(&2), Mode::MemMode(2));
    assert_eq!(get_mode(&3), Mode::RegMode);
}

#[test]
fn byte_register_table() {
    let expected = [
        Register::Al,
        Register::Cl,
        Register::Dl,
        Register::Bl,
        Register::Ah,
        Register::Ch,
        Register::Dh,
        Register::Bh,
    ];
    let names = ["AL", "CL", "DL", "BL", "AH", "CH", "DH", "BH"];
    for code in 0..8u8 {
        assert_eq!(get_register(&0, &code), expected[code as usize]);
        assert_eq!(lookup_register(Width::Byte, code), expected[code as usize]);
        assert_eq!(lookup_register(Width::Byte, code).name(), names[code as usize]);
    }
}

#[test]
fn word_register_table() {
    let expected = [
        Register::Ax,
        Register::Cx,
        Register::Dx,
        Register::Bx,
        Register::Sp,
        Register::Bp,
        Register::Si,
        Register::Di,
    ];
    let names = ["AX", "CX", "DX", "BX", "SP", "BP", "SI", "DI"];
    for code in 0..8u8 {
        assert_eq!(get_register(&1, &code), expected[code as usize]);
        assert_eq!(lookup_register(Width::Word, code), expected[code as usize]);
        assert_eq!(lookup_register(Width::Word, code).name(), names[code as usize]);
    }
}

#[test]
fn segment_register_table() {
    assert_eq!(get_segment(&0), Register::Es);
    assert_eq!(get_segment(&1), Register::Cs);
    assert_eq!(get_segment(&2), Register::Ss);
    assert_eq!(get_segment(&3), Register::Ds);
    assert_eq!(Register::Es.name(), "ES");
    assert_eq!(Register::Ds.name(), "DS");
}

#[test]
fn register_or_segment_goes_by_the_last_opcode_digit() {
    assert_eq!(get_register_or_segment(&0, &0, &3), Some(Register::Bl));
    assert_eq!(get_register_or_segment(&3, &1, &3), Some(Register::Bx));
    assert_eq!(get_register_or_segment(&4, &0, &3), None);
    assert_eq!(get_register_or_segment(&6, &0, &1), None);
    assert_eq!(get_register_or_segment(&7, &1, &7), None);
}

#[test]
fn first_register_of_an_effective_address() {
    let expected = [
        Register::Bx,
        Register::Bx,
        Register::Bp,
        Register::Bp,
        Register::Si,
        Register::Di,
        Register::Bp,
        Register::Bx,
    ];
    for code in 0..8u8 {
        assert_eq!(get_memory1(&code), expected[code as usize]);
        let in_mode_0 = if code == 6 { None } else { Some(expected[code as usize]) };
        assert_eq!(get_register_or_mem1(&Mode::MemMode(0), &1, &code), in_mode_0);
        assert_eq!(get_register_or_mem1(&Mode::MemMode(1), &1, &code), Some(expected[code as usize]));
        assert_eq!(get_register_or_mem1(&Mode::MemMode(2), &0, &code), Some(expected[code as usize]));
    }
}

#[test]
fn register_or_mem1_in_register_mode_is_the_register() {
    assert_eq!(get_register_or_mem1(&Mode::RegMode, &1, &1), Some(Register::Cx));
    assert_eq!(get_register_or_mem1(&Mode::RegMode, &0, &4), Some(Register::Ah));
    assert_eq!(get_register_or_mem1(&Mode::RegMode, &1, &6), Some(Register::Si));
    assert_eq!(get_register_or_mem1(&Mode::MemMode(2), &0, &4), Some(Register::Si));
}

#[test]
fn register_or_mem1_of_a_direct_address_is_none() {
    assert_eq!(get_register_or_mem1(&Mode::MemMode(0), &0, &6), None);
    assert_eq!(get_register_or_mem1(&Mode::MemMode(0), &1, &6), None);
    assert_eq!(get_register_or_mem1(&Mode::MemMode(1), &1, &6), Some(Register::Bp));
    assert_eq!(get_register_or_mem1(&Mode::MemMode(2), &1, &6), Some(Register::Bp));
}

#[test]
fn second_register_of_an_effective_address() {
    for mode in 0..=2u8 {
        assert_eq!(get_memory2(&mode, &0), Some(Register::Si));
        assert_eq!(get_memory2(&mode, &1), Some(Register::Di));
        assert_eq!(get_memory2(&mode, &2), Some(Register::Si));
        assert_eq!(get_memory2(&mode, &3), Some(Register::Di));
        for code in 4..8u8 {
            assert_eq!(get_memory2(&mode, &code), None);
        }
    }
    for code in 0..8u8 {
        assert_eq!(get_memory2(&3, &code), None);
    }
}

#[test]
fn displacement_size_of_a_mode() {
    assert_eq!(get_displacement(&Mode::MemMode(0)), None);
    assert_eq!(get_displacement(&Mode::MemMode(1)), Some(Displacement::D8));
    assert_eq!(get_displacement(&Mode::MemMode(2)), Some(Displacement::D16));
    assert_eq!(get_displacement(&Mode::RegMode), None);
}

#[test]
fn effective_address_table() {
    let expected = [
        MemoryComponents::Two(Register::Bx, Register::Si),
        MemoryComponents::Two(Register::Bx, Register::Di),
        MemoryComponents::Two(Register::Bp, Register::Si),
        MemoryComponents::Two(Register::Bp, Register::Di),
        MemoryComponents::One(Register::Si),
        MemoryComponents::One(Register::Di),
        MemoryComponents::One(Register::Bp),
        MemoryComponents::One(Register::Bx),
    ];
    for code in 0..8u8 {
        assert_eq!(lookup_effective_address(code), expected[code as usize]);
    }
}

#[test]
fn direct_address_is_mode_0_with_code_6_only() {
    for mode in 0..4u8 {
        for code in 0..8u8 {
            assert_eq!(is_direct_address(mode, code), mode == 0 && code == 6);
        }
    }
}

#[test]
fn width_and_its_bit() {
    assert_eq!(Width::from_bit(0), Width::Byte);
    assert_eq!(Width::from_bit(1), Width::Word);
    assert_eq!(Width::Byte.to_bit(), 0);
    assert_eq!(Width::Word.to_bit(), 1);
    assert_eq!(Width::Byte.byte_count(), 1);
    assert_eq!(Width::Word.byte_count(), 2);
}
