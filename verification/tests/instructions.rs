use rc8::instructions::{Instruction, InstructionDecodeError};
use rc8::memory::Address;

fn unknown(opcode: u16) -> Result<Instruction, InstructionDecodeError> {
    Err(InstructionDecodeError::UnknownInstruction(opcode))
}

#[test]
fn test_decode_clear_screen_and_return() {
    assert_eq!(Instruction::try_from(0x00E0), Ok(Instruction::ClearScreen));
    assert_eq!(Instruction::try_from(0x00EE), Ok(Instruction::Return));
}

#[test]
fn test_decode_sys() {
    assert_eq!(
        Instruction::try_from(0x0000),
        Ok(Instruction::Sys { address: Address(0) })
    );
    assert_eq!(
        Instruction::try_from(0x0ABC),
        Ok(Instruction::Sys { address: Address(0xABC) })
    );
    assert_eq!(
        Instruction::try_from(0x00E1),
        Ok(Instruction::Sys { address: Address(0x0E1) })
    );
    assert_eq!(
        Instruction::try_from(0x01EE),
        Ok(Instruction::Sys { address: Address(0x1EE) })
    );
}

#[test]
fn test_decode_jump_and_call() {
    assert_eq!(
        Instruction::try_from(0x1234),
        Ok(Instruction::JumpTo { address: Address(0x234) })
    );
    assert_eq!(
        Instruction::try_from(0x1FFF),
        Ok(Instruction::JumpTo { address: Address(0xFFF) })
    );
    assert_eq!(
        Instruction::try_from(0x2300),
        Ok(Instruction::Call { address: Address(0x300) })
    );
}

#[test]
fn test_decode_register_and_immediate() {
    assert_eq!(
        Instruction::try_from(0x3A42),
        Ok(Instruction::SkipIfEqVImm { reg_num: 0xA, imm: 0x42 })
    );
    assert_eq!(
        Instruction::try_from(0x4B00),
        Ok(Instruction::SkipIfNotEqVImm { reg_num: 0xB, imm: 0x00 })
    );
    assert_eq!(
        Instruction::try_from(0x60FA),
        Ok(Instruction::LoadVImm { reg_num: 0, imm: 0xFA })
    );
    assert_eq!(
        Instruction::try_from(0x7FFF),
        Ok(Instruction::AddVImm { reg_num: 0xF, imm: 0xFF })
    );
}

#[test]
fn test_decode_two_registers() {
    assert_eq!(
        Instruction::try_from(0x5120),
        Ok(Instruction::SkipIfEqualV2 { x_reg_num: 1, y_reg_num: 2 })
    );
    assert_eq!(
        Instruction::try_from(0x9EF0),
        Ok(Instruction::SkipIfNotEqualV2 { x_reg_num: 0xE, y_reg_num: 0xF })
    );
    assert_eq!(
        Instruction::try_from(0x8120),
        Ok(Instruction::SetEqual { x_reg_num: 1, y_reg_num: 2 })
    );
    assert_eq!(
        Instruction::try_from(0x8121),
        Ok(Instruction::BitWiseOrEqual { x_reg_num: 1, y_reg_num: 2 })
    );
    assert_eq!(
        Instruction::try_from(0x8122),
        Ok(Instruction::BitWiseAndEqual { x_reg_num: 1, y_reg_num: 2 })
    );
    assert_eq!(
        Instruction::try_from(0x8123),
        Ok(Instruction::BitWiseXorEqual { x_reg_num: 1, y_reg_num: 2 })
    );
    assert_eq!(
        Instruction::try_from(0x8124),
        Ok(Instruction::AddV2 { x_reg_num: 1, y_reg_num: 2 })
    );
    assert_eq!(
        Instruction::try_from(0x8125),
        Ok(Instruction::SubV2 { x_reg_num: 1, y_reg_num: 2 })
    );
    assert_eq!(
        Instruction::try_from(0x8126),
        Ok(Instruction::ShiftRight { x_reg_num: 1, y_reg_num: 2 })
    );
    assert_eq!(
        Instruction::try_from(0x8127),
        Ok(Instruction::SubNV2 { x_reg_num: 1, y_reg_num: 2 })
    );
    assert_eq!(
        Instruction::try_from(0x812E),
        Ok(Instruction::ShiftLeft { x_reg_num: 1, y_reg_num: 2 })
    );
}

#[test]
fn test_decode_index_and_draw() {
    assert_eq!(
        Instruction::try_from(0xA300),
        Ok(Instruction::LoadIImm { imm: 0x300 })
    );
    assert_eq!(
        Instruction::try_from(0xAFFF),
        Ok(Instruction::LoadIImm { imm: 0xFFF })
    );
    assert_eq!(
        Instruction::try_from(0xD011),
        Ok(Instruction::Draw { x_reg_num: 0, y_reg_num: 1, sprite_length: 1 })
    );
    assert_eq!(
        Instruction::try_from(0xDABF),
        Ok(Instruction::Draw { x_reg_num: 0xA, y_reg_num: 0xB, sprite_length: 0xF })
    );
}

#[test]
fn test_decode_one_register() {
    assert_eq!(
        Instruction::try_from(0xF31E),
        Ok(Instruction::AddIV { register_num: 3 })
    );
    assert_eq!(
        Instruction::try_from(0xF433),
        Ok(Instruction::BCDRegister { register_num: 4 })
    );
    assert_eq!(
        Instruction::try_from(0xF555),
        Ok(Instruction::SaveRegistersToMem { max_reg_num: 5 })
    );
    assert_eq!(
        Instruction::try_from(0xFF65),
        Ok(Instruction::LoadRegistersFromMem { max_reg_num: 0xF })
    );
}

#[test]
fn test_decode_unknown_low_nibble() {
    assert_eq!(Instruction::try_from(0x5121), unknown(0x5121));
    assert_eq!(Instruction::try_from(0x512F), unknown(0x512F));
    assert_eq!(Instruction::try_from(0x9121), unknown(0x9121));
    assert_eq!(Instruction::try_from(0x8128), unknown(0x8128));
    assert_eq!(Instruction::try_from(0x812D), unknown(0x812D));
    assert_eq!(Instruction::try_from(0x812F), unknown(0x812F));
}

#[test]
fn test_decode_unknown_family() {
    assert_eq!(Instruction::try_from(0xB123), unknown(0xB123));
    assert_eq!(Instruction::try_from(0xC0FF), unknown(0xC0FF));
    assert_eq!(Instruction::try_from(0xE09E), unknown(0xE09E));
    assert_eq!(Instruction::try_from(0xE0A1), unknown(0xE0A1));
    assert_eq!(Instruction::try_from(0xF007), unknown(0xF007));
    assert_eq!(Instruction::try_from(0xF00A), unknown(0xF00A));
    assert_eq!(Instruction::try_from(0xF015), unknown(0xF015));
    assert_eq!(Instruction::try_from(0xF029), unknown(0xF029));
    assert_eq!(Instruction::try_from(0xFFFF), unknown(0xFFFF));
}

fn belongs_to_an_instruction(opcode: u16) -> bool {
    let low = opcode & 0xF;
    let low_byte = opcode & 0xFF;
    match opcode >> 12 {
        0x0 | 0x1 | 0x2 | 0x3 | 0x4 | 0x6 | 0x7 | 0xA | 0xD => true,
        0x5 | 0x9 => low == 0,
        0x8 => low <= 7 || low == 0xE,
        0xF => [0x1E, 0x33, 0x55, 0x65].contains(&low_byte),
        _ => false,
    }
}

#[test]
fn test_decode_every_opcode_is_an_instruction_or_itself_unknown() {
    for opcode in 0..=u16::MAX {
        let decoded = Instruction::try_from(opcode);
        if belongs_to_an_instruction(opcode) {
            assert!(decoded.is_ok(), "{opcode:#06x}");
        } else {
            assert_eq!(decoded, unknown(opcode));
        }
    }
}

#[test]
fn test_decode_through_try_into() {
    let decoded: Result<Instruction, InstructionDecodeError> = 0x00E0u16.try_into();
    assert_eq!(decoded, Ok(Instruction::ClearScreen));
}

#[test]
fn test_decoded_operands_are_in_range() {
    for opcode in 0..=u16::MAX {
        match Instruction::try_from(opcode) {
            Ok(Instruction::Call { address })
            | Ok(Instruction::JumpTo { address })
            | Ok(Instruction::Sys { address }) => assert_eq!(address, Address(opcode & 0xFFF)),
            Ok(Instruction::LoadIImm { imm }) => assert_eq!(imm, opcode & 0xFFF),
            Ok(Instruction::Draw { x_reg_num, y_reg_num, sprite_length }) => {
                assert_eq!(u16::from(x_reg_num), (opcode >> 8) & 0xF);
                assert_eq!(u16::from(y_reg_num), (opcode >> 4) & 0xF);
                assert_eq!(u16::from(sprite_length), opcode & 0xF);
            }
            Ok(Instruction::LoadVImm { reg_num, imm })
            | Ok(Instruction::AddVImm { reg_num, imm })
            | Ok(Instruction::SkipIfEqVImm { reg_num, imm })
            | Ok(Instruction::SkipIfNotEqVImm { reg_num, imm }) => {
                assert_eq!(u16::from(reg_num), (opcode >> 8) & 0xF);
                assert_eq!(u16::from(imm), opcode & 0xFF);
            }
            _ => {}
        }
    }
}
