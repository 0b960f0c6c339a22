//! The instruction set and the decoding of 16-bit opcodes.
//!
//! Opcodes are written with hexadecimal digits, where `x` and `y` stand for
//! register numbers, `n` for a 4-bit value, `kk` for a byte and `nnn` for a
//! 12-bit address:
//!
//! | Opcode | Instruction            |
//! |--------|------------------------|
//! | `00E0` | `ClearScreen`          |
//! | `00EE` | `Return`               |
//! | `0nnn` | `Sys` (any other)      |
//! | `1nnn` | `JumpTo`               |
//! | `2nnn` | `Call`                 |
//! | `3xkk` | `SkipIfEqVImm`         |
//! | `4xkk` | `SkipIfNotEqVImm`      |
//! | `5xy0` | `SkipIfEqualV2`        |
//! | `6xkk` | `LoadVImm`             |
//! | `7xkk` | `AddVImm`              |
//! | `8xy0` | `SetEqual`             |
//! | `8xy1` | `BitWiseOrEqual`       |
//! | `8xy2` | `BitWiseAndEqual`      |
//! | `8xy3` | `BitWiseXorEqual`      |
//! | `8xy4` | `AddV2`                |
//! | `8xy5` | `SubV2`                |
//! | `8xy6` | `ShiftRight`           |
//! | `8xy7` | `SubNV2`               |
//! | `8xyE` | `ShiftLeft`            |
//! | `9xy0` | `SkipIfNotEqualV2`     |
//! | `Annn` | `LoadIImm`             |
//! | `Dxyn` | `Draw`                 |
//! | `Fx1E` | `AddIV`                |
//! | `Fx33` | `BCDRegister`          |
//! | `Fx55` | `SaveRegistersToMem`   |
//! | `Fx65` | `LoadRegistersFromMem` |
//!
//! Every other opcode is unknown: the machine has no keyboard, timers,
//! sound or random numbers, and so none of their instructions.

use vstd::prelude::*;
use vstd::std_specs::convert::TryFromSpecImpl;
use crate::memory::{Address, MEMORY_SIZE};
use crate::registers::REGISTER_COUNT;

verus! {

/// A decoded instruction with its operands.
#[derive(Debug, Copy, Clone, PartialEq, PartialOrd, Ord, Eq, Structural)]
#[allow(inconsistent_fields)]
pub enum Instruction {
    /// Turn every pixel off.
    ClearScreen,
    /// Push the program counter and continue at `address`.
    Call { address: Address },
    /// Pop the call stack into the program counter.
    Return,
    /// V`reg_num` := `imm`.
    LoadVImm { reg_num: u8, imm: u8 },
    /// I := `imm`.
    LoadIImm { imm: u16 },
    /// V`reg_num` := V`reg_num` + `imm` modulo 256; VF is left alone.
    AddVImm { reg_num: u8, imm: u8 },
    /// Draw the `sprite_length` bytes at I as a sprite with its top left
    /// corner at column VX, row VY.
    Draw { x_reg_num: u8, y_reg_num: u8, sprite_length: u8 },
    /// Continue at `address`.
    JumpTo { address: Address },
    /// A call into the host machine; it does nothing here.
    Sys { address: Address },
    /// Skip the next instruction if V`reg_num` equals `imm`.
    SkipIfEqVImm { reg_num: u8, imm: u8 },
    /// Skip the next instruction if V`reg_num` differs from `imm`.
    SkipIfNotEqVImm { reg_num: u8, imm: u8 },
    /// Skip the next instruction if VX equals VY.
    SkipIfEqualV2 { x_reg_num: u8, y_reg_num: u8 },
    /// Skip the next instruction if VX differs from VY.
    SkipIfNotEqualV2 { x_reg_num: u8, y_reg_num: u8 },
    /// VX := VY.
    SetEqual { x_reg_num: u8, y_reg_num: u8 },
    /// VX := VX | VY.
    BitWiseOrEqual { x_reg_num: u8, y_reg_num: u8 },
    /// VX := VX & VY.
    BitWiseAndEqual { x_reg_num: u8, y_reg_num: u8 },
    /// VX := VX ^ VY.
    BitWiseXorEqual { x_reg_num: u8, y_reg_num: u8 },
    /// VX := VX + VY modulo 256; VF := 1 if the sum overflowed, else 0.
    AddV2 { x_reg_num: u8, y_reg_num: u8 },
    /// VX := VX - VY modulo 256; VF := 1 if VX was at least VY, else 0.
    SubV2 { x_reg_num: u8, y_reg_num: u8 },
    /// VX := VY - VX modulo 256; VF := 1 if VY was greater than VX, else 0.
    SubNV2 { x_reg_num: u8, y_reg_num: u8 },
    /// VX := source >> 1; VF := the bit shifted out. The source is VX, or
    /// VY in the legacy dialect.
    ShiftRight { x_reg_num: u8, y_reg_num: u8 },
    /// VX := source << 1 modulo 256; VF := the bit shifted out. The source
    /// is VX, or VY in the legacy dialect.
    ShiftLeft { x_reg_num: u8, y_reg_num: u8 },
    /// Load V0 to V`max_reg_num` from the bytes at I on.
    LoadRegistersFromMem { max_reg_num: u8 },
    /// Store V0 to V`max_reg_num` to the bytes at I on.
    SaveRegistersToMem { max_reg_num: u8 },
    /// Store the decimal digits of V`register_num` to the three bytes at I on.
    BCDRegister { register_num: u8 },
    /// I := I + V`register_num` modulo 2^16.
    AddIV { register_num: u8 },
}

/// Why an opcode could not be decoded.
#[derive(Debug, Copy, Clone, PartialEq, PartialOrd, Ord, Eq, Structural)]
pub enum InstructionDecodeError {
    /// The opcode belongs to no instruction; it is carried unchanged.
    UnknownInstruction(u16),
}

impl Instruction {
    /// Whether every register operand names one of the registers V0 to VF.
    pub open spec fn registers_valid(self) -> bool {
        match self {
            Instruction::LoadVImm { reg_num, .. }
            | Instruction::AddVImm { reg_num, .. }
            | Instruction::SkipIfEqVImm { reg_num, .. }
            | Instruction::SkipIfNotEqVImm { reg_num, .. } => reg_num < REGISTER_COUNT,
            Instruction::Draw { x_reg_num, y_reg_num, .. }
            | Instruction::SkipIfEqualV2 { x_reg_num, y_reg_num }
            | Instruction::SkipIfNotEqualV2 { x_reg_num, y_reg_num }
            | Instruction::SetEqual { x_reg_num, y_reg_num }
            | Instruction::BitWiseOrEqual { x_reg_num, y_reg_num }
            | Instruction::BitWiseAndEqual { x_reg_num, y_reg_num }
            | Instruction::BitWiseXorEqual { x_reg_num, y_reg_num }
            | Instruction::AddV2 { x_reg_num, y_reg_num }
            | Instruction::SubV2 { x_reg_num, y_reg_num }
            | Instruction::SubNV2 { x_reg_num, y_reg_num }
            | Instruction::ShiftRight { x_reg_num, y_reg_num }
            | Instruction::ShiftLeft { x_reg_num, y_reg_num } => x_reg_num < REGISTER_COUNT
                && y_reg_num < REGISTER_COUNT,
            Instruction::LoadRegistersFromMem { max_reg_num }
            | Instruction::SaveRegistersToMem { max_reg_num } => max_reg_num < REGISTER_COUNT,
            Instruction::BCDRegister { register_num }
            | Instruction::AddIV { register_num } => register_num < REGISTER_COUNT,
            Instruction::ClearScreen
            | Instruction::Return
            | Instruction::Call { .. }
            | Instruction::JumpTo { .. }
            | Instruction::Sys { .. }
            | Instruction::LoadIImm { .. } => true,
        }
    }
}

/// The opcode family: bits 12 to 15.
pub open spec fn family(opcode: u16) -> u8 {
    (opcode as int / 0x1000) as u8
}

/// The first register operand: bits 8 to 11.
pub open spec fn x_field(opcode: u16) -> u8 {
    ((opcode as int / 0x100) % 0x10) as u8
}

/// The second register operand: bits 4 to 7.
pub open spec fn y_field(opcode: u16) -> u8 {
    ((opcode as int / 0x10) % 0x10) as u8
}

/// The 4-bit length or discriminant: bits 0 to 3.
pub open spec fn nibble_field(opcode: u16) -> u8 {
    (opcode as int % 0x10) as u8
}

/// The 8-bit immediate: bits 0 to 7.
pub open spec fn byte_field(opcode: u16) -> u8 {
    (opcode as int % 0x100) as u8
}

/// The 12-bit address or immediate: bits 0 to 11.
pub open spec fn address_field(opcode: u16) -> u16 {
    (opcode as int % 0x1000) as u16
}

/// Whether `opcode` belongs to an instruction, judged by its family and,
/// where the family has several members or gaps, by its low bits.
pub open spec fn is_known(opcode: u16) -> bool {
    let low = nibble_field(opcode);
    let low_byte = byte_field(opcode);
    match family(opcode) {
        0x0 | 0x1 | 0x2 | 0x3 | 0x4 | 0x6 | 0x7 | 0xA | 0xD => true,
        0x5 | 0x9 => low == 0,
        0x8 => low <= 7 || low == 0xE,
        0xF => low_byte == 0x1E || low_byte == 0x33 || low_byte == 0x55 || low_byte == 0x65,
        _ => false,
    }
}

/// The instruction that `opcode` encodes, or `UnknownInstruction` with the
/// opcode itself where it encodes none.
pub open spec fn decode(opcode: u16) -> Result<Instruction, InstructionDecodeError> {
    let address = Address(address_field(opcode));
    let reg_num = x_field(opcode);
    let imm = byte_field(opcode);
    let x_reg_num = x_field(opcode);
    let y_reg_num = y_field(opcode);
    let unknown = Err(InstructionDecodeError::UnknownInstruction(opcode));
    if opcode == 0x00E0 {
        Ok(Instruction::ClearScreen)
    } else if opcode == 0x00EE {
        Ok(Instruction::Return)
    } else {
        match family(opcode) {
            0x0 => Ok(Instruction::Sys { address }),
            0x1 => Ok(Instruction::JumpTo { address }),
            0x2 => Ok(Instruction::Call { address }),
            0x3 => Ok(Instruction::SkipIfEqVImm { reg_num, imm }),
            0x4 => Ok(Instruction::SkipIfNotEqVImm { reg_num, imm }),
            0x5 => if nibble_field(opcode) == 0 {
                Ok(Instruction::SkipIfEqualV2 { x_reg_num, y_reg_num })
            } else {
                unknown
            },
            0x6 => Ok(Instruction::LoadVImm { reg_num, imm }),
            0x7 => Ok(Instruction::AddVImm { reg_num, imm }),
            0x8 => match nibble_field(opcode) {
                0x0 => Ok(Instruction::SetEqual { x_reg_num, y_reg_num }),
                0x1 => Ok(Instruction::BitWiseOrEqual { x_reg_num, y_reg_num }),
                0x2 => Ok(Instruction::BitWiseAndEqual { x_reg_num, y_reg_num }),
                0x3 => Ok(Instruction::BitWiseXorEqual { x_reg_num, y_reg_num }),
                0x4 => Ok(Instruction::AddV2 { x_reg_num, y_reg_num }),
                0x5 => Ok(Instruction::SubV2 { x_reg_num, y_reg_num }),
                0x6 => Ok(Instruction::ShiftRight { x_reg_num, y_reg_num }),
                0x7 => Ok(Instruction::SubNV2 { x_reg_num, y_reg_num }),
                0xE => Ok(Instruction::ShiftLeft { x_reg_num, y_reg_num }),
                _ => unknown,
            },
            0x9 => if nibble_field(opcode) == 0 {
                Ok(Instruction::SkipIfNotEqualV2 { x_reg_num, y_reg_num })
            } else {
                unknown
            },
            0xA => Ok(Instruction::LoadIImm { imm: address_field(opcode) }),
            0xD => Ok(
                Instruction::Draw { x_reg_num, y_reg_num, sprite_length: nibble_field(opcode) },
            ),
            0xF => match byte_field(opcode) {
                0x1E => Ok(Instruction::AddIV { register_num: reg_num }),
                0x33 => Ok(Instruction::BCDRegister { register_num: reg_num }),
                0x55 => Ok(Instruction::SaveRegistersToMem { max_reg_num: reg_num }),
                0x65 => Ok(Instruction::LoadRegistersFromMem { max_reg_num: reg_num }),
                _ => unknown,
            },
            _ => unknown,
        }
    }
}

/// Every operand of a decoded instruction is in range: register numbers
/// and sprite lengths are below 16, addresses and index immediates below
/// the size of memory.
pub proof fn lemma_decoded_operands(opcode: u16)
    ensures
        decode(opcode) matches Ok(instruction) ==> {
            &&& instruction.registers_valid()
            &&& instruction matches Instruction::Draw { sprite_length, .. } ==> sprite_length < 16
            &&& instruction matches Instruction::LoadIImm { imm } ==> imm < MEMORY_SIZE
            &&& instruction matches Instruction::Call { address } ==> address.in_bounds()
            &&& instruction matches Instruction::JumpTo { address } ==> address.in_bounds()
            &&& instruction matches Instruction::Sys { address } ==> address.in_bounds()
        },
{
}

/// An opcode decodes to an instruction exactly when it is known, and an
/// unknown opcode is reported as `UnknownInstruction` with the opcode itself.
pub proof fn lemma_unknown_opcodes(opcode: u16)
    ensures
        decode(opcode) is Ok <==> is_known(opcode),
        !is_known(opcode) ==> decode(opcode) == Err::<Instruction, InstructionDecodeError>(
            InstructionDecodeError::UnknownInstruction(opcode),
        ),
{
}

/// How the bit masks and shifts of the decoder relate to the opcode's fields.
proof fn lemma_fields_as_bits(opcode: u16)
    by (bit_vector)
    ensures
        opcode & 0xF000 == (opcode / 0x1000) * 0x1000,
        (opcode & 0x0F00) >> 8 == (opcode / 0x100) % 0x10,
        (opcode & 0x00F0) >> 4 == (opcode / 0x10) % 0x10,
        opcode & 0x000F == opcode % 0x10,
        opcode & 0x00FF == opcode % 0x100,
        opcode & 0x0FFF == opcode % 0x1000,
{
}

impl TryFrom<u16> for Instruction {
    type Error = InstructionDecodeError;

    /// Decodes one opcode. Every opcode gives either its instruction or
    /// `UnknownInstruction` with the opcode itself.
    fn try_from(opcode: u16) -> (result: Result<Self, Self::Error>)
        ensures
            result == decode(opcode),
            result is Ok <==> is_known(opcode),
            result is Err ==> result == Err::<Self, InstructionDecodeError>(
                InstructionDecodeError::UnknownInstruction(opcode),
            ),
    {
        if opcode == 0x00E0 {
            return Ok(Instruction::ClearScreen);
        }
        if opcode == 0x00EE {
            return Ok(Instruction::Return);
        }
        proof {
            lemma_fields_as_bits(opcode);
        }
        match opcode & 0xF000 {
            0x1000 => {
                let address = Address(opcode & 0x0FFF);
                Ok(Instruction::JumpTo { address })
            },
            0x2000 => {
                let address = Address(opcode & 0x0FFF);
                Ok(Instruction::Call { address })
            },
            0x3000 => {
                let (reg_num, imm) = separate_register_and_imm(opcode);
                Ok(Instruction::SkipIfEqVImm { reg_num, imm })
            },
            0x4000 => {
                let (reg_num, imm) = separate_register_and_imm(opcode);
                Ok(Instruction::SkipIfNotEqVImm { reg_num, imm })
            },
            0x5000 => {
                let (x_reg_num, y_reg_num, last_nibble) = separate_two_registers_and_nibble(opcode);
                if last_nibble == 0 {
                    Ok(Instruction::SkipIfEqualV2 { x_reg_num, y_reg_num })
                } else {
                    Err(InstructionDecodeError::UnknownInstruction(opcode))
                }
            },
            0x6000 => {
                let (reg_num, imm) = separate_register_and_imm(opcode);
                Ok(Instruction::LoadVImm { reg_num, imm })
            },
            0x7000 => {
                let (reg_num, imm) = separate_register_and_imm(opcode);
                Ok(Instruction::AddVImm { reg_num, imm })
            },
            0x8000 => {
                let (x_reg_num, y_reg_num, last_nibble) = separate_two_registers_and_nibble(opcode);
                match last_nibble {
                    0x0 => Ok(Instruction::SetEqual { x_reg_num, y_reg_num }),
                    0x1 => Ok(Instruction::BitWiseOrEqual { x_reg_num, y_reg_num }),
                    0x2 => Ok(Instruction::BitWiseAndEqual { x_reg_num, y_reg_num }),
                    0x3 => Ok(Instruction::BitWiseXorEqual { x_reg_num, y_reg_num }),
                    0x4 => Ok(Instruction::AddV2 { x_reg_num, y_reg_num }),
                    0x5 => Ok(Instruction::SubV2 { x_reg_num, y_reg_num }),
                    0x6 => Ok(Instruction::ShiftRight { x_reg_num, y_reg_num }),
                    0x7 => Ok(Instruction::SubNV2 { x_reg_num, y_reg_num }),
                    0xE => Ok(Instruction::ShiftLeft { x_reg_num, y_reg_num }),
                    _ => Err(InstructionDecodeError::UnknownInstruction(opcode)),
                }
            },
            0x9000 => {
                let (x_reg_num, y_reg_num, last_nibble) = separate_two_registers_and_nibble(opcode);
                if last_nibble == 0 {
                    Ok(Instruction::SkipIfNotEqualV2 { x_reg_num, y_reg_num })
                } else {
                    Err(InstructionDecodeError::UnknownInstruction(opcode))
                }
            },
            0xA000 => {
                let imm: u16 = opcode & 0xFFF;
                Ok(Instruction::LoadIImm { imm })
            },
            0xD000 => {
                let (x_reg_num, y_reg_num, sprite_length) = separate_two_registers_and_nibble(
                    opcode,
                );
                Ok(Instruction::Draw { x_reg_num, y_reg_num, sprite_length })
            },
            0xF000 => {
                let (register_num, selector) = separate_register_and_imm(opcode);
                match selector {
                    0x1E => Ok(Instruction::AddIV { register_num }),
                    0x33 => Ok(Instruction::BCDRegister { register_num }),
                    0x55 => Ok(Instruction::SaveRegistersToMem { max_reg_num: register_num }),
                    0x65 => Ok(Instruction::LoadRegistersFromMem { max_reg_num: register_num }),
                    _ => Err(InstructionDecodeError::UnknownInstruction(opcode)),
                }
            },
            0x0000 => {
                let address = Address(opcode & 0x0FFF);
                Ok(Instruction::Sys { address })
            },
            _ => Err(InstructionDecodeError::UnknownInstruction(opcode)),
        }
    }
}

impl TryFromSpecImpl<u16> for Instruction {
    open spec fn obeys_try_from_spec() -> bool {
        true
    }

    open spec fn try_from_spec(opcode: u16) -> Result<Self, InstructionDecodeError> {
        decode(opcode)
    }
}

/// Splits an opcode of the form `_xkk` into the register number and the byte.
fn separate_register_and_imm(opcode: u16) -> (fields: (u8, u8))
    ensures
        fields.0 == x_field(opcode),
        fields.1 == byte_field(opcode),
{
    proof {
        lemma_fields_as_bits(opcode);
    }
    let register_index: u8 = ((opcode & 0x0F00) >> 8) as u8;
    let immediate: u8 = (opcode & 0x00FF) as u8;
    (register_index, immediate)
}

/// Splits an opcode of the form `_xyn` into the two register numbers and the
/// last 4-bit field.
fn separate_two_registers_and_nibble(opcode: u16) -> (fields: (u8, u8, u8))
    ensures
        fields.0 == x_field(opcode),
        fields.1 == y_field(opcode),
        fields.2 == nibble_field(opcode),
{
    proof {
        lemma_fields_as_bits(opcode);
    }
    let register_index_1: u8 = ((opcode & 0x0F00) >> 8) as u8;
    let register_index_2: u8 = ((opcode & 0x00F0) >> 4) as u8;
    let nibble: u8 = (opcode & 0x000F) as u8;
    (register_index_1, register_index_2, nibble)
}

} // verus!
