use mov_decoder::disasm::{disassemble, step, Disassembler, State, Step};
use mov_decoder::error::{DecodeError, Stage};
use mov_decoder::instruction::{Instruction, Mnemonic};
use mov_decoder::operand::{Memory, Operand};
use mov_decoder::render::{
    render_address, render_decimal, render_listing, render_memory, render_operand, render_signed,
};
use mov_decoder::tables::{MemoryComponents, Register, Width};

#[test]
fn empty_stream_has_no_instructions() {
    assert_eq!(disassemble(&[]), Ok(vec![]));
    assert_eq!(step(&[], 0), Step::Done);
}

#[test]
fn stream_of_several_instructions() {
    let bytes = [
        0x89, 0xD9, // MOV CX, BX
        0xB1, 0x0C, // MOV CL, 12
        0x8A, 0x00, // MOV AL, [BX + SI]
        0x89, 0x4E, 0x0A, // MOV [BP + 10], CX
        0xA0, 0x01, 0x02, // MOV AL, [0x0201]
        0xC7, 0x85, 0x85, 0x03, 0x5B, 0x01, // MOV [DI + 901], 347
        0xA3, 0x34, 0x12, // MOV [0x1234], AX
    ];
    let instructions = disassemble(&bytes).unwrap();
    assert_eq!(instructions.len(), 7);
    let lines = render_listing(&instructions);
    assert_eq!(
        lines,
        vec![
            "MOV CX, BX",
            "MOV CL, 12",
            "MOV AL, [BX + SI]",
            "MOV [BP + 10], CX",
            "MOV AL, [0x0201]",
            "MOV [DI + 901], 347",
            "MOV [0x1234], AX",
        ]
    );
}

#[test]
fn steps_advance_by_the_bytes_consumed() {
    let bytes = [0x89, 0xD9, 0x89, 0x4E, 0x0A, 0xB9, 0x0C, 0x00];
    let mut pos = 0;
    let mut starts = vec![];
    loop {
        match step(&bytes, pos) {
            Step::Done => break,
            Step::Emitted { next, .. } => {
                starts.push(pos);
                assert!(next > pos);
                pos = next;
            }
            Step::Failed(error) => panic!("no failure in this stream: {:?}", error),
        }
    }
    assert_eq!(starts, vec![0, 2, 5]);
    assert_eq!(pos, bytes.len());
}

#[test]
fn step_emits_the_instruction_at_the_position() {
    let bytes = [0x89, 0xD9, 0x88, 0xE0];
    assert_eq!(
        step(&bytes, 2),
        Step::Emitted {
            instruction: Instruction {
                mnemonic: Mnemonic::Mov,
                destination: Operand::Register(Register::Al),
                source: Operand::Register(Register::Ah),
            },
            next: 4,
        }
    );
    assert_eq!(step(&bytes, 4), Step::Done);
    assert_eq!(step(&bytes, 9), Step::Done);
}

#[test]
fn stream_cut_inside_an_instruction_fails() {
    let bytes = [0x89, 0xD9, 0x89, 0x4E];
    assert_eq!(
        disassemble(&bytes),
        Err(DecodeError::TruncatedStream { offset: 4, stage: Stage::Displacement })
    );
    assert_eq!(
        step(&bytes, 2),
        Step::Failed(DecodeError::TruncatedStream { offset: 4, stage: Stage::Displacement })
    );
    let bytes = [0x89, 0xD9, 0x89];
    assert_eq!(
        disassemble(&bytes),
        Err(DecodeError::TruncatedStream { offset: 3, stage: Stage::AddressingByte })
    );
}

#[test]
fn stream_with_an_unknown_opcode_fails_at_its_offset() {
    let bytes = [0x89, 0xD9, 0xB1, 0x0C, 0x90, 0x89, 0xD9];
    assert_eq!(
        disassemble(&bytes),
        Err(DecodeError::UnsupportedOpcode { offset: 4, value: 0x90 })
    );
}

#[test]
fn disassembling_twice_gives_the_same_listing() {
    let bytes = [0x89, 0xD9, 0xC6, 0x03, 0x07, 0xA2, 0x00, 0x01];
    assert_eq!(disassemble(&bytes), disassemble(&bytes));
    assert_eq!(disassemble(&bytes).unwrap().len(), 3);
}

#[test]
fn decimal_text() {
    assert_eq!(render_decimal(0), "0");
    assert_eq!(render_decimal(7), "7");
    assert_eq!(render_decimal(10), "10");
    assert_eq!(render_decimal(12), "12");
    assert_eq!(render_decimal(32768), "32768");
    assert_eq!(render_decimal(4294967295), "4294967295");
    assert_eq!(render_signed(0), "0");
    assert_eq!(render_signed(-1), "-1");
    assert_eq!(render_signed(32767), "32767");
    assert_eq!(render_signed(-32768), "-32768");
}

#[test]
fn address_text() {
    assert_eq!(render_address(0), "0x0000");
    assert_eq!(render_address(0x0201), "0x0201");
    assert_eq!(render_address(0xBEEF), "0xBEEF");
    assert_eq!(render_address(0xFFFF), "0xFFFF");
    assert_eq!(render_address(0x00A0), "0x00A0");
}

#[test]
fn operand_text() {
    assert_eq!(render_operand(&Operand::Register(Register::Sp)), "SP");
    assert_eq!(render_operand(&Operand::Immediate { value: -7, width: Width::Word }), "-7");
    assert_eq!(render_operand(&Operand::Immediate { value: 200, width: Width::Byte }), "200");
    let memory = Memory {
        components: MemoryComponents::Two(Register::Bp, Register::Di),
        displacement: Some(300),
        direct_address: None,
    };
    assert_eq!(render_memory(&memory), "[BP + DI + 300]");
    assert_eq!(render_operand(&Operand::Memory(memory)), "[BP + DI + 300]");
    let memory = Memory {
        components: MemoryComponents::One(Register::Si),
        displacement: None,
        direct_address: None,
    };
    assert_eq!(render_memory(&memory), "[SI]");
    let memory = Memory {
        components: MemoryComponents::Zero,
        displacement: None,
        direct_address: Some(0x0C00),
    };
    assert_eq!(render_memory(&memory), "[0x0C00]");
}

#[test]
fn driver_moves_only_past_decoded_instructions() {
    let bytes = [0x89, 0xD9, 0xB9, 0x0C, 0x00, 0x90];
    let mut driver = Disassembler::new();
    assert_eq!(driver.position, 0);
    assert_eq!(driver.state(&bytes), State::Reading);
    assert!(matches!(driver.advance(&bytes), Step::Emitted { next: 2, .. }));
    assert_eq!(driver.position, 2);
    assert!(matches!(driver.advance(&bytes), Step::Emitted { next: 5, .. }));
    assert_eq!(driver.position, 5);
    assert_eq!(
        driver.advance(&bytes),
        Step::Failed(DecodeError::UnsupportedOpcode { offset: 5, value: 0x90 })
    );
    assert_eq!(driver.position, 5);
    assert_eq!(driver.state(&bytes), State::Reading);
}

#[test]
fn driver_is_done_at_the_end_of_the_stream() {
    let bytes = [0x89, 0xD9];
    let mut driver = Disassembler::new();
    assert_eq!(driver.state(&[]), State::Done);
    assert!(matches!(driver.advance(&bytes), Step::Emitted { next: 2, .. }));
    assert_eq!(driver.state(&bytes), State::Done);
    assert_eq!(driver.advance(&bytes), Step::Done);
    assert_eq!(driver.position, 2);
}

#[test]
fn listing_of_two_streams_joined() {
    let first = [0x89, 0xD9, 0x8B, 0x2E, 0x0D, 0x82];
    let second = [0xB1, 0x0C, 0xA3, 0x34, 0x12];
    let mut joined = first.to_vec();
    joined.extend_from_slice(&second);
    let mut expected = disassemble(&first).unwrap();
    expected.extend(disassemble(&second).unwrap());
    assert_eq!(expected.len(), 4);
    assert_eq!(disassemble(&joined), Ok(expected));
}
