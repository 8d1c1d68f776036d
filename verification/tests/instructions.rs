use classfile_disasm::error::DecodeError;
use classfile_disasm::instructions::{
    decode_instruction, decode_instructions, decode_operand, operand_shape, Instruction,
    Operand, OperandShape,
};
use classfile_disasm::opcodes::{get_opcode, Opcode};

fn hello_world_code() -> Vec<u8> {
    vec![0xb2, 0x00, 0x01, 0x12, 0x02, 0xb6, 0x00, 0x03, 0xb1]
}

fn width(instruction: &Instruction) -> usize {
    match instruction.operand {
        Operand::NoOperand => 1,
        Operand::NarrowIndex(_) => 2,
        Operand::WideIndex(_) => 3,
    }
}

#[test]
fn hello_world_has_four_instructions() {
    let instructions = decode_instructions(&hello_world_code()).unwrap();
    assert_eq!(
        instructions,
        vec![
            Instruction { offset: 0, opcode: Opcode::Getstatic, operand: Operand::WideIndex(1) },
            Instruction { offset: 3, opcode: Opcode::Ldc, operand: Operand::NarrowIndex(2) },
            Instruction {
                offset: 5,
                opcode: Opcode::Invokevirtual,
                operand: Operand::WideIndex(3)
            },
            Instruction { offset: 8, opcode: Opcode::Return, operand: Operand::NoOperand },
        ]
    );
    let offsets: Vec<usize> = instructions.iter().map(|i| i.offset).collect();
    assert_eq!(offsets, vec![0, 3, 5, 8]);
}

#[test]
fn widths_add_up_to_the_code_length() {
    let codes: Vec<Vec<u8>> = vec![
        hello_world_code(),
        vec![],
        vec![0x00],
        vec![0x2a, 0xb7, 0x00, 0x01, 0xb1],
        vec![0x12, 0xff, 0x12, 0x00, 0x00, 0x00, 0xb2, 0xff, 0xff],
    ];
    for code in codes {
        let instructions = decode_instructions(&code).unwrap();
        let mut offset = 0;
        for instruction in instructions.iter() {
            assert_eq!(instruction.offset, offset);
            offset += width(instruction);
        }
        assert_eq!(offset, code.len());
    }
}

#[test]
fn decoding_can_start_again_at_any_instruction() {
    let code = hello_world_code();
    let all = decode_instructions(&code).unwrap();
    for instruction in all.iter() {
        let (next, again) = decode_instruction(instruction.offset, &code).unwrap();
        assert_eq!(again, *instruction);
        assert_eq!(next, instruction.offset + width(instruction));
    }
    assert_eq!(decode_instructions(&code), Ok(all));
}

#[test]
fn each_shape_advances_by_its_width() {
    let code = vec![0x00u8, 0x12, 0x07, 0xb7, 0x01, 0x02, 0x2a];
    assert_eq!(
        decode_instruction(0, &code),
        Ok((1, Instruction { offset: 0, opcode: Opcode::Nop, operand: Operand::NoOperand }))
    );
    assert_eq!(
        decode_instruction(1, &code),
        Ok((3, Instruction { offset: 1, opcode: Opcode::Ldc, operand: Operand::NarrowIndex(7) }))
    );
    assert_eq!(
        decode_instruction(3, &code),
        Ok((
            6,
            Instruction {
                offset: 3,
                opcode: Opcode::Invokespecial,
                operand: Operand::WideIndex(0x0102)
            }
        ))
    );
    assert_eq!(
        decode_instruction(6, &code),
        Ok((7, Instruction { offset: 6, opcode: Opcode::Aload0, operand: Operand::NoOperand }))
    );
    assert_eq!(decode_instruction(7, &code), Err(DecodeError::BufferUnderrun { offset: 7 }));
}

#[test]
fn opcode_without_rule_is_unimplemented() {
    assert_eq!(
        decode_instructions(&vec![0x00, 0x01]),
        Err(DecodeError::UnimplementedOpcode { byte: 0x01, offset: 1 })
    );
    assert_eq!(
        decode_instructions(&vec![0xb2, 0x00, 0x01, 0xbb, 0x00, 0x02]),
        Err(DecodeError::UnimplementedOpcode { byte: 0xbb, offset: 3 })
    );
    assert_eq!(
        decode_instruction(0, &vec![0x10, 0x05]),
        Err(DecodeError::UnimplementedOpcode { byte: 0x10, offset: 0 })
    );
}

#[test]
fn byte_that_is_no_opcode_is_unimplemented() {
    for byte in [0xcbu8, 0xd0, 0xfd] {
        assert_eq!(
            decode_instructions(&vec![0xb1, byte]),
            Err(DecodeError::UnimplementedOpcode { byte, offset: 1 })
        );
    }
}

#[test]
fn operand_cut_short_is_an_underrun() {
    assert_eq!(decode_instructions(&vec![0x12]), Err(DecodeError::BufferUnderrun { offset: 1 }));
    assert_eq!(
        decode_instructions(&vec![0xb1, 0xb2, 0x00]),
        Err(DecodeError::BufferUnderrun { offset: 2 })
    );
    assert_eq!(decode_instructions(&vec![0xb6]), Err(DecodeError::BufferUnderrun { offset: 1 }));
}

#[test]
fn exactly_seven_opcodes_have_a_rule() {
    let mut with_rule = Vec::new();
    for byte in 0..=255u8 {
        if let Some(opcode) = get_opcode(byte) {
            if let Some(shape) = operand_shape(&opcode) {
                with_rule.push((byte, shape));
            }
        }
    }
    assert_eq!(
        with_rule,
        vec![
            (0x00, OperandShape::NoOperand),
            (0x12, OperandShape::NarrowIndex),
            (0x2a, OperandShape::NoOperand),
            (0xb1, OperandShape::NoOperand),
            (0xb2, OperandShape::WideIndex),
            (0xb6, OperandShape::WideIndex),
            (0xb7, OperandShape::WideIndex),
        ]
    );
}

#[test]
fn operands_are_raw_indices() {
    let code = vec![0xAB, 0xCD, 0xEF];
    assert_eq!(decode_operand(0, OperandShape::NoOperand, &code), Ok((0, Operand::NoOperand)));
    assert_eq!(
        decode_operand(0, OperandShape::NarrowIndex, &code),
        Ok((1, Operand::NarrowIndex(0xAB)))
    );
    assert_eq!(
        decode_operand(1, OperandShape::WideIndex, &code),
        Ok((3, Operand::WideIndex(0xCDEF)))
    );
    assert_eq!(
        decode_operand(2, OperandShape::WideIndex, &code),
        Err(DecodeError::BufferUnderrun { offset: 2 })
    );
    assert_eq!(decode_operand(3, OperandShape::NoOperand, &code), Ok((3, Operand::NoOperand)));
}

#[test]
fn opcodes_and_bytes_are_one_to_one() {
    let mut count = 0;
    for byte in 0..=255u8 {
        match get_opcode(byte) {
            Some(opcode) => {
                count += 1;
                assert_eq!(opcode.to_byte(), byte);
                assert!(byte <= 0xca || byte >= 0xfe);
            }
            None => assert!(byte > 0xca && byte < 0xfe),
        }
    }
    assert_eq!(count, 205);
}

#[test]
fn some_opcodes_by_byte() {
    assert_eq!(get_opcode(0x00), Some(Opcode::Nop));
    assert_eq!(get_opcode(0x12), Some(Opcode::Ldc));
    assert_eq!(get_opcode(0x2a), Some(Opcode::Aload0));
    assert_eq!(get_opcode(0x94), Some(Opcode::Lcmp));
    assert_eq!(get_opcode(0xa7), Some(Opcode::Goto));
    assert_eq!(get_opcode(0xb1), Some(Opcode::Return));
    assert_eq!(get_opcode(0xb2), Some(Opcode::Getstatic));
    assert_eq!(get_opcode(0xb6), Some(Opcode::Invokevirtual));
    assert_eq!(get_opcode(0xb7), Some(Opcode::Invokespecial));
    assert_eq!(get_opcode(0xc9), Some(Opcode::JsrW));
    assert_eq!(get_opcode(0xca), Some(Opcode::Breakpoint));
    assert_eq!(get_opcode(0xcb), None);
    assert_eq!(get_opcode(0xfd), None);
    assert_eq!(get_opcode(0xfe), Some(Opcode::Impdep1));
    assert_eq!(get_opcode(0xff), Some(Opcode::Impdep2));
}

#[test]
fn mnemonics() {
    assert_eq!(Opcode::Nop.str(), "nop");
    assert_eq!(Opcode::AconstNull.str(), "aconst_null");
    assert_eq!(Opcode::IconstM1.str(), "iconst_m1");
    assert_eq!(Opcode::Ldc.str(), "ldc");
    assert_eq!(Opcode::LdcW.str(), "ldc_w");
    assert_eq!(Opcode::Ldc2W.str(), "ldc2_w");
    assert_eq!(Opcode::Aload0.str(), "aload_0");
    assert_eq!(Opcode::Dup2X2.str(), "dup2_x2");
    assert_eq!(Opcode::IfIcmpeq.str(), "if_icmpeq");
    assert_eq!(Opcode::IfAcmpne.str(), "if_acmpne");
    assert_eq!(Opcode::Return.str(), "return");
    assert_eq!(Opcode::Getstatic.str(), "getstatic");
    assert_eq!(Opcode::Invokevirtual.str(), "invokevirtual");
    assert_eq!(Opcode::Invokespecial.str(), "invokespecial");
    assert_eq!(Opcode::Instanceof.str(), "instanceof");
    assert_eq!(Opcode::GotoW.str(), "goto_w");
    assert_eq!(Opcode::Impdep2.str(), "impdep2");
}

#[test]
fn mnemonics_follow_the_opcode_names() {
    for byte in 0..=255u8 {
        if let Some(opcode) = get_opcode(byte) {
            let mnemonic = opcode.str();
            let squeezed: String = mnemonic.chars().filter(|c| *c != '_').collect();
            assert_eq!(squeezed, format!("{:?}", opcode).to_lowercase());
        }
    }
}
