//! The machine as a mathematical object: its state and what each instruction
//! and each fetch/decode/execute cycle does to it. The executable machine is
//! proved to behave exactly like this model.
//!
//! Conventions of the model:
//!
//! - Operands are read before anything is written. An instruction that
//!   yields a flag writes its result to VX first and the flag to VF last, so
//!   with VF as its destination the flag is what remains.
//! - A block access (register load and store, decimal digits, sprite read)
//!   touches its bytes in ascending order and stops at the first byte
//!   outside RAM. What was transferred before stays transferred.
//! - A sprite is read completely before anything is drawn. Drawing toggles
//!   pixels; it neither wraps coordinates nor reports collisions in VF.
//! - The call stack has no fixed depth.
//! - A cycle is not a transaction: once the fetch has succeeded the program
//!   counter has moved on, and it stays there if the cycle then fails.

use vstd::prelude::*;
use crate::display::{blank_grid, is_grid, sprite_bit, DISPLAY_HEIGHT, DISPLAY_WIDTH, SPRITE_WIDTH};
use crate::executor::ExecutionError;
use crate::instructions::{
    decode,
    is_known,
    Instruction,
    InstructionDecodeError,
};
use crate::memory::{
    read_word,
    with_program,
    zeroed_memory,
    Address,
    MemoryAccessError,
    MEMORY_SIZE,
    PROGRAM_START,
};
use crate::registers::{
    carries,
    wrapping_difference,
    wrapping_index_sum,
    wrapping_sum,
    FLAG_REGISTER,
    REGISTER_COUNT,
};

verus! {

/// The complete state of the machine.
#[verifier::ext_equal]
pub struct Machine {
    /// The bytes of RAM, by address.
    pub memory: Seq<u8>,
    /// The values of V0 to VF, by register number.
    pub registers: Seq<u8>,
    /// The index register I.
    pub index: u16,
    /// The address of the next instruction.
    pub pc: Address,
    /// The return addresses of the calls in progress, oldest first.
    pub stack: Seq<Address>,
    /// The pixels, indexed by column and then by row.
    pub display: Seq<Seq<bool>>,
    /// Whether the shift instructions read VY rather than VX.
    pub legacy_shift: bool,
}

/// A register file with every register zero.
pub open spec fn zeroed_registers() -> Seq<u8> {
    Seq::new(REGISTER_COUNT as nat, |r: int| 0u8)
}

/// The value that VF takes for a flag.
pub open spec fn flag_value(flag: bool) -> u8 {
    if flag {
        1
    } else {
        0
    }
}

/// The address of the first byte outside RAM among the `count` bytes from
/// `index` on, if there is one. Bytes are touched in ascending order, so this
/// is where a block access stops.
pub open spec fn first_fault(index: u16, count: int) -> Option<Address> {
    if count <= 0 || index + count <= MEMORY_SIZE {
        None
    } else if index >= MEMORY_SIZE {
        Some(Address(index))
    } else {
        Some(Address(MEMORY_SIZE as u16))
    }
}

/// The outcome of a block access of `count` bytes from `index` on.
pub open spec fn block_result(index: u16, count: int) -> Result<(), ExecutionError> {
    match first_fault(index, count) {
        None => Ok(()),
        Some(address) => Err(
            ExecutionError::MemoryAccess(MemoryAccessError::AddressOutOfBounds(address)),
        ),
    }
}

/// `memory` after `bytes` were stored from `index` on, up to the end of RAM.
pub open spec fn store_block(memory: Seq<u8>, index: u16, bytes: Seq<u8>) -> Seq<u8> {
    Seq::new(
        memory.len(),
        |a: int|
            if index <= a < index + bytes.len() {
                bytes[a - index]
            } else {
                memory[a]
            },
    )
}

/// `registers` after V0 to V`max_reg_num` were loaded from the bytes at
/// `index` on, up to the end of RAM.
pub open spec fn load_block(
    registers: Seq<u8>,
    memory: Seq<u8>,
    index: u16,
    max_reg_num: u8,
) -> Seq<u8> {
    Seq::new(
        registers.len(),
        |r: int|
            if r <= max_reg_num && index + r < MEMORY_SIZE {
                memory[index + r]
            } else {
                registers[r]
            },
    )
}

/// The decimal digits of a byte: hundreds, tens and ones.
pub open spec fn decimal_digits(value: u8) -> Seq<u8> {
    seq![value / 100, (value % 100) / 10, value % 10]
}

/// Whether the sprite `sprite`, drawn with its top left corner at column
/// `left` and row `top`, sets the pixel at column `x`, row `y`.
pub open spec fn sprite_covers(sprite: Seq<u8>, left: u8, top: u8, x: int, y: int) -> bool {
    &&& 0 <= x - left < SPRITE_WIDTH
    &&& 0 <= y - top < sprite.len()
    &&& sprite_bit(sprite[y - top], x - left)
}

/// Whether every pixel that the sprite sets lies on the display.
pub open spec fn sprite_on_display(sprite: Seq<u8>, left: u8, top: u8) -> bool {
    forall|r: int, c: int|
        0 <= r < sprite.len() && 0 <= c < SPRITE_WIDTH && #[trigger] sprite_bit(sprite[r], c)
            ==> left + c < DISPLAY_WIDTH && top + r < DISPLAY_HEIGHT
}

/// `grid` after the sprite was drawn onto it: every pixel that the sprite
/// sets is toggled, every other pixel is unchanged.
pub open spec fn draw_sprite(grid: Seq<Seq<bool>>, sprite: Seq<u8>, left: u8, top: u8) -> Seq<
    Seq<bool>,
> {
    Seq::new(
        DISPLAY_WIDTH as nat,
        |x: int|
            Seq::new(
                DISPLAY_HEIGHT as nat,
                |y: int| grid[x][y] != sprite_covers(sprite, left, top, x, y),
            ),
    )
}

impl Machine {
    /// Whether the state has the machine's dimensions.
    pub open spec fn wf(self) -> bool {
        &&& self.memory.len() == MEMORY_SIZE
        &&& self.registers.len() == REGISTER_COUNT
        &&& is_grid(self.display)
    }

    /// The state of a machine that was just built.
    pub open spec fn initial(legacy_shift: bool) -> Machine {
        Machine {
            memory: zeroed_memory(),
            registers: zeroed_registers(),
            index: 0,
            pc: Address(PROGRAM_START),
            stack: Seq::empty(),
            display: blank_grid(),
            legacy_shift,
        }
    }

    /// The state after `program` was loaded: everything but the call stack
    /// and the shift dialect is reset, and the program stands in zeroed RAM.
    pub open spec fn loaded(self, program: Seq<u8>) -> Machine {
        Machine {
            memory: with_program(zeroed_memory(), program),
            stack: self.stack,
            ..Machine::initial(self.legacy_shift)
        }
    }

    /// The value of register V`r`.
    pub open spec fn v(self, r: u8) -> u8 {
        self.registers[r as int]
    }

    /// The state with `value` in register V`r`.
    pub open spec fn with_register(self, r: u8, value: u8) -> Machine {
        Machine { registers: self.registers.update(r as int, value), ..self }
    }

    /// The state with VF set to 1 for a raised flag and to 0 otherwise.
    pub open spec fn with_flag(self, flag: bool) -> Machine {
        self.with_register(FLAG_REGISTER as u8, flag_value(flag))
    }

    /// The state with the program counter moved past one instruction. The
    /// program counter is meant to be at most `u16::MAX - 2`, as it is
    /// wherever a word can be fetched.
    pub open spec fn advanced(self) -> Machine {
        Machine { pc: Address((self.pc.0 + 2) as u16), ..self }
    }

    /// The state with the next instruction skipped if `condition` holds.
    pub open spec fn skip_if(self, condition: bool) -> Machine {
        if condition {
            self.advanced()
        } else {
            self
        }
    }

    /// The operand of a shift of VX: VY in the legacy dialect, VX otherwise.
    pub open spec fn shift_source(self, x_reg_num: u8, y_reg_num: u8) -> u8 {
        if self.legacy_shift {
            self.v(y_reg_num)
        } else {
            self.v(x_reg_num)
        }
    }

    /// The `length` bytes of the sprite that I points at.
    pub open spec fn sprite(self, length: u8) -> Seq<u8> {
        Seq::new(length as nat, |k: int| self.memory[self.index + k])
    }

    /// The state after `instruction` was carried out. Where the instruction
    /// fails part way, the state holds what was done before the failure.
    pub open spec fn execute(self, instruction: Instruction) -> Machine {
        match instruction {
            Instruction::ClearScreen => Machine { display: blank_grid(), ..self },
            Instruction::Return => if self.stack.len() == 0 {
                self
            } else {
                Machine { pc: self.stack.last(), stack: self.stack.drop_last(), ..self }
            },
            Instruction::Call { address } => Machine {
                pc: address,
                stack: self.stack.push(self.pc),
                ..self
            },
            Instruction::JumpTo { address } => Machine { pc: address, ..self },
            Instruction::Sys { .. } => self,
            Instruction::LoadVImm { reg_num, imm } => self.with_register(reg_num, imm),
            Instruction::AddVImm { reg_num, imm } => self.with_register(
                reg_num,
                wrapping_sum(self.v(reg_num), imm),
            ),
            Instruction::SkipIfEqVImm { reg_num, imm } => self.skip_if(self.v(reg_num) == imm),
            Instruction::SkipIfNotEqVImm { reg_num, imm } => self.skip_if(self.v(reg_num) != imm),
            Instruction::SkipIfEqualV2 { x_reg_num, y_reg_num } => self.skip_if(
                self.v(x_reg_num) == self.v(y_reg_num),
            ),
            Instruction::SkipIfNotEqualV2 { x_reg_num, y_reg_num } => self.skip_if(
                self.v(x_reg_num) != self.v(y_reg_num),
            ),
            Instruction::SetEqual { x_reg_num, y_reg_num } => self.with_register(
                x_reg_num,
                self.v(y_reg_num),
            ),
            Instruction::BitWiseOrEqual { x_reg_num, y_reg_num } => self.with_register(
                x_reg_num,
                self.v(x_reg_num) | self.v(y_reg_num),
            ),
            Instruction::BitWiseAndEqual { x_reg_num, y_reg_num } => self.with_register(
                x_reg_num,
                self.v(x_reg_num) & self.v(y_reg_num),
            ),
            Instruction::BitWiseXorEqual { x_reg_num, y_reg_num } => self.with_register(
                x_reg_num,
                self.v(x_reg_num) ^ self.v(y_reg_num),
            ),
            Instruction::AddV2 { x_reg_num, y_reg_num } => self.with_register(
                x_reg_num,
                wrapping_sum(self.v(x_reg_num), self.v(y_reg_num)),
            ).with_flag(carries(self.v(x_reg_num), self.v(y_reg_num))),
            Instruction::SubV2 { x_reg_num, y_reg_num } => self.with_register(
                x_reg_num,
                wrapping_difference(self.v(x_reg_num), self.v(y_reg_num)),
            ).with_flag(self.v(x_reg_num) >= self.v(y_reg_num)),
            Instruction::SubNV2 { x_reg_num, y_reg_num } => self.with_register(
                x_reg_num,
                wrapping_difference(self.v(y_reg_num), self.v(x_reg_num)),
            ).with_flag(self.v(y_reg_num) > self.v(x_reg_num)),
            Instruction::ShiftRight { x_reg_num, y_reg_num } => {
                let source = self.shift_source(x_reg_num, y_reg_num);
                self.with_register(x_reg_num, source >> 1).with_flag(source & 0x1 != 0)
            },
            Instruction::ShiftLeft { x_reg_num, y_reg_num } => {
                let source = self.shift_source(x_reg_num, y_reg_num);
                self.with_register(x_reg_num, source << 1).with_flag(source & 0x80 != 0)
            },
            Instruction::LoadIImm { imm } => Machine { index: imm, ..self },
            Instruction::AddIV { register_num } => Machine {
                index: wrapping_index_sum(self.index, self.v(register_num)),
                ..self
            },
            Instruction::LoadRegistersFromMem { max_reg_num } => Machine {
                registers: load_block(self.registers, self.memory, self.index, max_reg_num),
                ..self
            },
            Instruction::SaveRegistersToMem { max_reg_num } => Machine {
                memory: store_block(
                    self.memory,
                    self.index,
                    self.registers.take(max_reg_num + 1),
                ),
                ..self
            },
            Instruction::BCDRegister { register_num } => Machine {
                memory: store_block(
                    self.memory,
                    self.index,
                    decimal_digits(self.v(register_num)),
                ),
                ..self
            },
            Instruction::Draw { x_reg_num, y_reg_num, sprite_length } => if first_fault(
                self.index,
                sprite_length as int,
            ) is Some {
                self
            } else {
                Machine {
                    display: draw_sprite(
                        self.display,
                        self.sprite(sprite_length),
                        self.v(x_reg_num),
                        self.v(y_reg_num),
                    ),
                    ..self
                }
            },
        }
    }

    /// Whether carrying out `instruction` succeeds, and the error if not.
    pub open spec fn outcome(self, instruction: Instruction) -> Result<(), ExecutionError> {
        match instruction {
            Instruction::Return => if self.stack.len() == 0 {
                Err(ExecutionError::StackPopFail)
            } else {
                Ok(())
            },
            Instruction::LoadRegistersFromMem { max_reg_num }
            | Instruction::SaveRegistersToMem { max_reg_num } => block_result(
                self.index,
                max_reg_num + 1,
            ),
            Instruction::BCDRegister { .. } => block_result(self.index, 3),
            Instruction::Draw { sprite_length, .. } => block_result(
                self.index,
                sprite_length as int,
            ),
            _ => Ok(()),
        }
    }

    /// Whether `instruction` flips no pixel outside the display: it is no
    /// draw, or its sprite cannot be read, or the sprite stays on the display.
    pub open spec fn draw_fits(self, instruction: Instruction) -> bool {
        instruction matches Instruction::Draw { x_reg_num, y_reg_num, sprite_length }
            ==> first_fault(self.index, sprite_length as int) is None ==> sprite_on_display(
            self.sprite(sprite_length),
            self.v(x_reg_num),
            self.v(y_reg_num),
        )
    }

    /// The word that the next cycle fetches, or why it cannot be fetched.
    pub open spec fn fetch(self) -> Result<u16, MemoryAccessError> {
        read_word(self.memory, self.pc)
    }

    /// The state after one fetch/decode/execute cycle. A failed fetch leaves
    /// the state as it was; from then on the program counter has moved on,
    /// whatever follows.
    pub open spec fn step(self) -> Machine {
        match self.fetch() {
            Err(_) => self,
            Ok(opcode) => match decode(opcode) {
                Err(_) => self.advanced(),
                Ok(instruction) => self.advanced().execute(instruction),
            },
        }
    }

    /// Whether one cycle succeeds, and the error if not.
    pub open spec fn step_outcome(self) -> Result<(), ExecutionError> {
        match self.fetch() {
            Err(error) => Err(ExecutionError::MemoryAccess(error)),
            Ok(opcode) => match decode(opcode) {
                Err(error) => Err(ExecutionError::InstructionDecode(error)),
                Ok(instruction) => self.advanced().outcome(instruction),
            },
        }
    }

    /// Whether a cycle can be run in this state: the instruction that it
    /// reaches, if any, flips no pixel outside the display.
    pub open spec fn can_step(self) -> bool {
        self.fetch() matches Ok(opcode) ==> decode(opcode) matches Ok(instruction)
            ==> self.draw_fits(instruction)
    }
}

/// A call followed at once by a return restores the state: the program
/// counter is again the address after the call and the stack is as before.
pub proof fn lemma_call_then_return(machine: Machine, address: Address)
    ensures
        machine.outcome(Instruction::Call { address }) is Ok,
        machine.execute(Instruction::Call { address }).pc == address,
        machine.execute(Instruction::Call { address }).outcome(Instruction::Return) is Ok,
        machine.execute(Instruction::Call { address }).execute(Instruction::Return) == machine,
{
}

/// A return with an empty call stack fails, and changes nothing.
pub proof fn lemma_return_on_empty_stack(machine: Machine)
    requires
        machine.stack.len() == 0,
    ensures
        machine.outcome(Instruction::Return) == Err::<(), ExecutionError>(
            ExecutionError::StackPopFail,
        ),
        machine.execute(Instruction::Return) == machine,
{
}

/// Over two cycles: when the first cycle runs a call to `target` and the
/// word at `target` is a return, the second cycle succeeds and leaves the
/// program counter just after the call and the stack as it was.
pub proof fn lemma_call_return_cycles(machine: Machine, target: Address)
    requires
        machine.wf(),
        machine.fetch() matches Ok(opcode) && decode(opcode) == Ok::<
            Instruction,
            InstructionDecodeError,
        >(Instruction::Call { address: target }),
        read_word(machine.memory, target) == Ok::<u16, MemoryAccessError>(0x00EE),
    ensures
        machine.step_outcome() is Ok,
        machine.step().step_outcome() is Ok,
        machine.step().step().pc == Address((machine.pc.0 + 2) as u16),
        machine.step().step().stack == machine.stack,
        machine.step().step() == machine.advanced(),
{
}

/// The three decimal digits of a byte are each below ten and add up to it.
pub proof fn lemma_decimal_digits(value: u8)
    ensures
        decimal_digits(value).len() == 3,
        decimal_digits(value)[0] < 10 && decimal_digits(value)[1] < 10 && decimal_digits(
            value,
        )[2] < 10,
        decimal_digits(value)[0] * 100 + decimal_digits(value)[1] * 10 + decimal_digits(value)[2]
            == value,
{
}

/// Every state that the model reaches from a well-formed state is well-formed.
pub proof fn lemma_execute_wf(machine: Machine, instruction: Instruction)
    requires
        machine.wf(),
        instruction.registers_valid(),
    ensures
        machine.execute(instruction).wf(),
        machine.advanced().wf(),
        machine.step().wf(),
{
}

/// What a failed cycle leaves behind. A failed fetch changes nothing and is
/// reported as it is. An unknown opcode moves the program counter on, changes
/// nothing else, and is reported with the opcode itself.
pub proof fn lemma_failed_cycle(machine: Machine)
    ensures
        machine.fetch() matches Err(error) ==> machine.step() == machine && machine.step_outcome()
            == Err::<(), ExecutionError>(ExecutionError::MemoryAccess(error)),
        machine.fetch() matches Ok(opcode) ==> !is_known(opcode) ==> machine.step()
            == machine.advanced() && machine.step_outcome() == Err::<(), ExecutionError>(
            ExecutionError::InstructionDecode(InstructionDecodeError::UnknownInstruction(opcode)),
        ),
{
}

/// Drawing toggles exactly the pixels that the sprite covers and keeps the
/// grid's shape.
pub proof fn lemma_draw_sprite(
    grid: Seq<Seq<bool>>,
    sprite: Seq<u8>,
    left: u8,
    top: u8,
    x: int,
    y: int,
)
    requires
        0 <= x < DISPLAY_WIDTH,
        0 <= y < DISPLAY_HEIGHT,
    ensures
        is_grid(draw_sprite(grid, sprite, left, top)),
        draw_sprite(grid, sprite, left, top)[x][y] == (grid[x][y] != sprite_covers(
            sprite,
            left,
            top,
            x,
            y,
        )),
{
}

/// Drawing the same sprite at the same place twice restores the grid.
pub proof fn lemma_draw_twice(grid: Seq<Seq<bool>>, sprite: Seq<u8>, left: u8, top: u8)
    requires
        is_grid(grid),
    ensures
        draw_sprite(draw_sprite(grid, sprite, left, top), sprite, left, top) == grid,
{
    assert(draw_sprite(draw_sprite(grid, sprite, left, top), sprite, left, top) =~~= grid);
}

} // verus!
