//! The executable machine. It owns memory, registers, display and call
//! stack, and runs one fetch/decode/execute cycle per call.
//!
//! What a cycle does is defined by [`Machine::step`] and
//! [`Machine::step_outcome`]; the code here is proved to do exactly that.

use vstd::prelude::*;
use vstd::std_specs::convert::FromSpecImpl;
use crate::display::{
    is_sprite_of,
    memory_to_flip_instructions,
    sprite_bit,
    Chip8Display,
    DISPLAY_HEIGHT,
    DISPLAY_WIDTH,
};
use crate::instructions::{Instruction, InstructionDecodeError};
use crate::machine::{
    block_result,
    decimal_digits,
    first_fault,
    sprite_covers,
    sprite_on_display,
    Machine,
};
use crate::memory::{program_end, program_fits, Address, MemoryAccessError, Ram, MEMORY_SIZE};
use crate::registers::{RegisterI, RegisterPC, RegisterV, REGISTER_COUNT};

verus! {

/// Why a cycle did not complete.
#[derive(Debug, Copy, Clone, PartialEq, PartialOrd, Ord, Eq, Structural)]
pub enum ExecutionError {
    /// A fetch, load or store touched an address it may not touch.
    MemoryAccess(MemoryAccessError),
    /// The fetched word is no instruction.
    InstructionDecode(InstructionDecodeError),
    /// A return was executed while the call stack was empty.
    StackPopFail,
}

impl From<MemoryAccessError> for ExecutionError {
    fn from(error: MemoryAccessError) -> (result: Self) {
        ExecutionError::MemoryAccess(error)
    }
}

impl FromSpecImpl<MemoryAccessError> for ExecutionError {
    open spec fn obeys_from_spec() -> bool {
        true
    }

    open spec fn from_spec(error: MemoryAccessError) -> Self {
        ExecutionError::MemoryAccess(error)
    }
}

impl From<InstructionDecodeError> for ExecutionError {
    fn from(error: InstructionDecodeError) -> (result: Self) {
        ExecutionError::InstructionDecode(error)
    }
}

impl FromSpecImpl<InstructionDecodeError> for ExecutionError {
    open spec fn obeys_from_spec() -> bool {
        true
    }

    open spec fn from_spec(error: InstructionDecodeError) -> Self {
        ExecutionError::InstructionDecode(error)
    }
}

/// The machine. Its view is the [`Machine`] state that it is in.
///
/// The machine owns all of its state; a host reaches the display through
/// [`Executor::get_display_mut`] and reads the rest through the getters.
#[derive(Debug, PartialEq, PartialOrd, Ord, Eq)]
pub struct Executor {
    memory: Ram,
    gp_registers: [RegisterV; 16],
    display: Chip8Display,
    i: RegisterI,
    pc: RegisterPC,
    stack: Vec<Address>,
    legacy_shift: bool,
}

impl View for Executor {
    type V = Machine;

    closed spec fn view(&self) -> Machine {
        Machine {
            memory: self.memory@,
            registers: Seq::new(16, |r: int| self.gp_registers@[r]@),
            index: self.i@,
            pc: self.pc@,
            stack: self.stack@,
            display: self.display@,
            legacy_shift: self.legacy_shift,
        }
    }
}

impl Executor {
    /// The state of any machine has the machine's dimensions.
    pub broadcast proof fn lemma_wf(&self)
        ensures
            #[trigger] self@.wf(),
    {
        self.memory.lemma_len();
        self.display.lemma_is_grid();
    }

    /// A machine with zeroed memory and registers, a blank display, an
    /// empty call stack and the program counter at the start of program
    /// memory. `legacy_shift` selects the dialect of the shift instructions.
    #[must_use]
    pub fn new(legacy_shift: bool) -> (executor: Self)
        ensures
            executor@ == Machine::initial(legacy_shift),
    {
        let executor = Executor {
            memory: Ram::new(),
            gp_registers: cleared_registers(),
            display: Chip8Display::new(),
            i: RegisterI::new(),
            pc: RegisterPC::new(),
            stack: Vec::new(),
            legacy_shift,
        };
        executor
    }

    /// Loads `program` into zeroed memory and resets the registers, the
    /// program counter and the display. The call stack and the shift
    /// dialect stay as they are. A program that does not fit is refused and
    /// the machine is left as it was.
    pub fn load_program(&mut self, program: &[u8]) -> (result: Result<(), MemoryAccessError>)
        ensures
            program_fits(program@.len()) ==> result == Ok::<(), MemoryAccessError>(())
                && final(self)@ == old(self)@.loaded(program@),
            !program_fits(program@.len()) ==> result == Err::<(), MemoryAccessError>(
                MemoryAccessError::AddressOutOfBounds(program_end(program@.len())),
            ) && final(self)@ == old(self)@,
    {
        let mut memory = Ram::new();
        match memory.load_program(program) {
            Ok(()) => {},
            Err(error) => {
                return Err(error);
            },
        }
        self.memory = memory;
        self.pc = RegisterPC::new();
        self.display = Chip8Display::new();
        self.gp_registers = cleared_registers();
        self.i = RegisterI::new();
        Ok(())
    }

    /// Runs one cycle: fetches the word at the program counter, moves the
    /// program counter past it, decodes the word and carries the
    /// instruction out.
    ///
    /// The cycle fails with the error of the step that failed. A failed
    /// fetch changes nothing; after that the program counter stays moved
    /// on, and an instruction that fails part way leaves what it did before.
    ///
    /// A draw must not toggle a pixel outside the display. Whether the
    /// coming cycle would do so is what [`Executor::can_execute_once`] tells.
    pub fn execute_once(&mut self) -> (result: Result<(), ExecutionError>)
        requires
            old(self)@.can_step(),
        ensures
            final(self)@ == old(self)@.step(),
            result == old(self)@.step_outcome(),
    {
        let pc = self.pc.get();
        let opcode: u16 = match self.memory.get_wide(pc) {
            Ok(word) => word,
            Err(error) => {
                return Err(ExecutionError::from(error));
            },
        };
        self.pc.inc();
        let instruction = match Instruction::try_from(opcode) {
            Ok(instruction) => instruction,
            Err(error) => {
                return Err(ExecutionError::from(error));
            },
        };
        self.execute(instruction)
    }

    /// Whether [`Executor::execute_once`] may be called in this state, that
    /// is whether the coming cycle toggles no pixel outside the display.
    pub fn can_execute_once(&self) -> (ready: bool)
        ensures
            ready == self@.can_step(),
    {
        let opcode: u16 = match self.memory.get_wide(self.pc.get()) {
            Ok(word) => word,
            Err(_) => {
                return true;
            },
        };
        match Instruction::try_from(opcode) {
            Ok(Instruction::Draw { x_reg_num, y_reg_num, sprite_length }) => {
                match self.read_sprite(sprite_length) {
                    Ok(sprite) => {
                        let left: u8 = self.gp_registers[x_reg_num as usize].get();
                        let top: u8 = self.gp_registers[y_reg_num as usize].get();
                        sprite_fits(sprite.as_slice(), left, top)
                    },
                    Err(_) => true,
                }
            },
            _ => true,
        }
    }

    /// Carries out one decoded instruction.
    fn execute(&mut self, instruction: Instruction) -> (result: Result<(), ExecutionError>)
        requires
            instruction.registers_valid(),
            old(self)@.pc.0 + 2 <= u16::MAX,
            old(self)@.draw_fits(instruction),
        ensures
            final(self)@ == old(self)@.execute(instruction),
            result == old(self)@.outcome(instruction),
    {
        match instruction {
            Instruction::ClearScreen => self.display.clear(),
            Instruction::Return => {
                let return_address = match self.stack.pop() {
                    Some(address) => address,
                    None => {
                        return Err(ExecutionError::StackPopFail);
                    },
                };
                self.pc.set(return_address);
            },
            Instruction::Call { address } => {
                self.stack.push(self.pc.get());
                self.pc.set(address);
            },
            Instruction::LoadVImm { reg_num, imm } => {
                self.gp_registers[reg_num as usize].set(imm);
            },
            Instruction::AddVImm { reg_num, imm } => {
                // The flag register is left alone here.
                let _ = self.gp_registers[reg_num as usize].add(imm);
            },
            Instruction::SkipIfEqVImm { reg_num, imm } => {
                if self.gp_registers[reg_num as usize].get() == imm {
                    self.pc.inc();
                }
            },
            Instruction::SkipIfNotEqVImm { reg_num, imm } => {
                if self.gp_registers[reg_num as usize].get() != imm {
                    self.pc.inc();
                }
            },
            Instruction::SkipIfEqualV2 { x_reg_num, y_reg_num } => {
                if self.gp_registers[x_reg_num as usize].get()
                    == self.gp_registers[y_reg_num as usize].get() {
                    self.pc.inc();
                }
            },
            Instruction::SkipIfNotEqualV2 { x_reg_num, y_reg_num } => {
                if self.gp_registers[x_reg_num as usize].get()
                    != self.gp_registers[y_reg_num as usize].get() {
                    self.pc.inc();
                }
            },
            Instruction::LoadIImm { imm } => {
                self.i.set(imm);
            },
            Instruction::Draw { x_reg_num, y_reg_num, sprite_length } => {
                match self.draw_on_display(x_reg_num, y_reg_num, sprite_length) {
                    Ok(()) => {},
                    Err(error) => {
                        return Err(ExecutionError::from(error));
                    },
                }
            },
            Instruction::JumpTo { address } => {
                self.pc.set(address);
            },
            Instruction::SetEqual { x_reg_num, y_reg_num } => {
                let value: u8 = self.gp_registers[y_reg_num as usize].get();
                self.gp_registers[x_reg_num as usize].set(value);
            },
            Instruction::BitWiseOrEqual { x_reg_num, y_reg_num } => {
                let current_val: u8 = self.gp_registers[x_reg_num as usize].get();
                let bit_or_val: u8 = self.gp_registers[y_reg_num as usize].get();
                self.gp_registers[x_reg_num as usize].set(current_val | bit_or_val);
            },
            Instruction::BitWiseAndEqual { x_reg_num, y_reg_num } => {
                let current_val: u8 = self.gp_registers[x_reg_num as usize].get();
                let bit_and_val: u8 = self.gp_registers[y_reg_num as usize].get();
                self.gp_registers[x_reg_num as usize].set(current_val & bit_and_val);
            },
            Instruction::BitWiseXorEqual { x_reg_num, y_reg_num } => {
                let current_val: u8 = self.gp_registers[x_reg_num as usize].get();
                let bit_xor_val: u8 = self.gp_registers[y_reg_num as usize].get();
                self.gp_registers[x_reg_num as usize].set(current_val ^ bit_xor_val);
            },
            Instruction::AddV2 { x_reg_num, y_reg_num } => {
                let addend: u8 = self.gp_registers[y_reg_num as usize].get();
                let flag_result = self.gp_registers[x_reg_num as usize].add(addend);
                self.set_flag_register(flag_result);
            },
            Instruction::SubV2 { x_reg_num, y_reg_num } => {
                let subtrahend: u8 = self.gp_registers[y_reg_num as usize].get();
                let flag_result = self.gp_registers[x_reg_num as usize].sub(subtrahend);
                self.set_flag_register(flag_result);
            },
            Instruction::SubNV2 { x_reg_num, y_reg_num } => {
                let minuend: u8 = self.gp_registers[y_reg_num as usize].get();
                let subtrahend: u8 = self.gp_registers[x_reg_num as usize].get();
                self.gp_registers[x_reg_num as usize].set(minuend.wrapping_sub(subtrahend));
                self.set_flag_register(minuend > subtrahend);
            },
            Instruction::ShiftRight { x_reg_num, y_reg_num } => {
                let used_register: u8 = if self.legacy_shift {
                    self.gp_registers[y_reg_num as usize].get()
                } else {
                    self.gp_registers[x_reg_num as usize].get()
                };
                self.gp_registers[x_reg_num as usize].set(used_register >> 1);
                self.set_flag_register((used_register & 0x1) != 0);
            },
            Instruction::ShiftLeft { x_reg_num, y_reg_num } => {
                let used_register: u8 = if self.legacy_shift {
                    self.gp_registers[y_reg_num as usize].get()
                } else {
                    self.gp_registers[x_reg_num as usize].get()
                };
                self.gp_registers[x_reg_num as usize].set(used_register << 1);
                self.set_flag_register((used_register & 0x80) != 0);
            },
            Instruction::LoadRegistersFromMem { max_reg_num } => {
                return self.load_registers(max_reg_num);
            },
            Instruction::SaveRegistersToMem { max_reg_num } => {
                return self.save_registers(max_reg_num);
            },
            Instruction::BCDRegister { register_num } => {
                return self.store_digits(register_num);
            },
            Instruction::AddIV { register_num } => {
                self.i.add(self.gp_registers[register_num as usize].get());
            },
            Instruction::Sys { .. } => {},
        }
        Ok(())
    }

    /// Loads V0 to V`max_reg_num` from the bytes that I points at, in
    /// ascending order, and stops at the first byte outside RAM.
    fn load_registers(&mut self, max_reg_num: u8) -> (result: Result<(), ExecutionError>)
        requires
            max_reg_num < 16,
        ensures
            final(self)@ == old(self)@.execute(Instruction::LoadRegistersFromMem { max_reg_num }),
            result == block_result(old(self)@.index, max_reg_num + 1),
    {
        let start_mem: u16 = self.i.get();
        let mut offset: u8 = 0;
        proof {
            self.lemma_wf();
        }
        while offset <= max_reg_num
            invariant
                max_reg_num < 16,
                offset <= max_reg_num + 1,
                start_mem == old(self)@.index,
                offset > 0 ==> start_mem + offset - 1 < MEMORY_SIZE,
                self@.wf(),
                old(self)@.wf(),
                self@ == (Machine { registers: self@.registers, ..old(self)@ }),
                forall|r: int|
                    0 <= r < 16 ==> self@.registers[r] == if r < offset {
                        old(self)@.memory[start_mem + r]
                    } else {
                        old(self)@.registers[r]
                    },
            decreases max_reg_num + 1 - offset,
        {
            let byte: u8 = match self.memory.get(Address(start_mem + offset as u16)) {
                Ok(byte) => byte,
                Err(error) => {
                    return Err(ExecutionError::from(error));
                },
            };
            let ghost before = self@;
            self.gp_registers[offset as usize].set(byte);
            assert(self@ =~~= before.with_register(offset, byte));
            offset += 1;
        }
        Ok(())
    }

    /// Stores V0 to V`max_reg_num` to the bytes that I points at, in
    /// ascending order, and stops at the first byte outside RAM.
    fn save_registers(&mut self, max_reg_num: u8) -> (result: Result<(), ExecutionError>)
        requires
            max_reg_num < 16,
        ensures
            final(self)@ == old(self)@.execute(Instruction::SaveRegistersToMem { max_reg_num }),
            result == block_result(old(self)@.index, max_reg_num + 1),
    {
        let start_mem: u16 = self.i.get();
        let mut offset: u8 = 0;
        proof {
            self.lemma_wf();
        }
        while offset <= max_reg_num
            invariant
                max_reg_num < 16,
                offset <= max_reg_num + 1,
                start_mem == old(self)@.index,
                offset > 0 ==> start_mem + offset - 1 < MEMORY_SIZE,
                self@.wf(),
                old(self)@.wf(),
                self@ == (Machine { memory: self@.memory, ..old(self)@ }),
                forall|a: int|
                    0 <= a < MEMORY_SIZE ==> self@.memory[a] == if start_mem <= a < start_mem
                        + offset {
                        old(self)@.registers[a - start_mem]
                    } else {
                        old(self)@.memory[a]
                    },
            decreases max_reg_num + 1 - offset,
        {
            let value: u8 = self.gp_registers[offset as usize].get();
            match self.memory.set(Address(start_mem + offset as u16), value) {
                Ok(()) => {},
                Err(error) => {
                    return Err(ExecutionError::from(error));
                },
            }
            offset += 1;
        }
        Ok(())
    }

    /// Stores the decimal digits of V`register_num` to the three bytes
    /// that I points at, hundreds first, and stops at the first byte
    /// outside RAM.
    fn store_digits(&mut self, register_num: u8) -> (result: Result<(), ExecutionError>)
        requires
            register_num < 16,
        ensures
            final(self)@ == old(self)@.execute(Instruction::BCDRegister { register_num }),
            result == block_result(old(self)@.index, 3),
    {
        proof {
            self.lemma_wf();
        }
        let (first_digit, second_digit, third_digit) = Executor::bcd(
            self.gp_registers[register_num as usize].get(),
        );
        let root_address: u16 = self.i.get();
        match self.memory.set(Address(root_address), first_digit) {
            Ok(()) => {},
            Err(error) => {
                return Err(ExecutionError::from(error));
            },
        }
        match self.memory.set(Address(root_address + 1), second_digit) {
            Ok(()) => {},
            Err(error) => {
                return Err(ExecutionError::from(error));
            },
        }
        match self.memory.set(Address(root_address + 2), third_digit) {
            Ok(()) => {},
            Err(error) => {
                return Err(ExecutionError::from(error));
            },
        }
        Ok(())
    }

    /// Reads the `sprite_length` bytes that I points at, in ascending
    /// order, and stops at the first byte outside RAM.
    fn read_sprite(&self, sprite_length: u8) -> (result: Result<Vec<u8>, MemoryAccessError>)
        ensures
            match first_fault(self@.index, sprite_length as int) {
                None => result matches Ok(sprite) && sprite@ == self@.sprite(sprite_length),
                Some(address) => result == Err::<Vec<u8>, MemoryAccessError>(
                    MemoryAccessError::AddressOutOfBounds(address),
                ),
            },
    {
        proof {
            self.lemma_wf();
        }
        let sprite_memory_start: u16 = self.i.get();
        let mut sprite_direct_memory: Vec<u8> = Vec::new();
        let mut offset: u8 = 0;
        while offset < sprite_length
            invariant
                offset <= sprite_length,
                sprite_memory_start == self@.index,
                offset > 0 ==> sprite_memory_start + offset - 1 < MEMORY_SIZE,
                self@.wf(),
                sprite_direct_memory@.len() == offset,
                forall|k: int|
                    0 <= k < offset ==> sprite_direct_memory@[k] == self@.memory[sprite_memory_start
                        + k],
            decreases sprite_length - offset,
        {
            match self.memory.get(Address(sprite_memory_start + offset as u16)) {
                Ok(byte) => sprite_direct_memory.push(byte),
                Err(error) => {
                    return Err(error);
                },
            }
            offset += 1;
        }
        Ok(sprite_direct_memory)
    }

    /// Draws the sprite of `sprite_length` bytes that I points at with its
    /// top left corner at column V`x_reg_num`, row V`y_reg_num`. If the
    /// sprite cannot be read, nothing is drawn.
    fn draw_on_display(&mut self, x_reg_num: u8, y_reg_num: u8, sprite_length: u8) -> (result:
        Result<(), MemoryAccessError>)
        requires
            x_reg_num < 16,
            y_reg_num < 16,
            old(self)@.draw_fits(Instruction::Draw { x_reg_num, y_reg_num, sprite_length }),
        ensures
            final(self)@ == old(self)@.execute(
                Instruction::Draw { x_reg_num, y_reg_num, sprite_length },
            ),
            match first_fault(old(self)@.index, sprite_length as int) {
                None => result == Ok::<(), MemoryAccessError>(()),
                Some(address) => result == Err::<(), MemoryAccessError>(
                    MemoryAccessError::AddressOutOfBounds(address),
                ),
            },
    {
        proof {
            self.lemma_wf();
        }
        let sprite_direct_memory = match self.read_sprite(sprite_length) {
            Ok(sprite) => sprite,
            Err(error) => {
                return Err(error);
            },
        };
        let sprite_flips = memory_to_flip_instructions(sprite_direct_memory.as_slice());

        let start_x: u8 = self.gp_registers[x_reg_num as usize].get();
        let start_y: u8 = self.gp_registers[y_reg_num as usize].get();
        let ghost sprite = sprite_direct_memory@;
        let mut offset_x: u8 = 0;
        while offset_x < 8
            invariant
                offset_x <= 8,
                sprite.len() == sprite_length,
                is_sprite_of(sprite_flips@, sprite),
                sprite_on_display(sprite, start_x, start_y),
                old(self)@.wf(),
                self@.wf(),
                self@ == (Machine { display: self@.display, ..old(self)@ }),
                forall|x: int, y: int|
                    0 <= x < DISPLAY_WIDTH && 0 <= y < DISPLAY_HEIGHT
                        ==> #[trigger] self@.display[x][y] == (old(self)@.display[x][y] != (
                    sprite_covers(sprite, start_x, start_y, x, y) && x - start_x < offset_x)),
            decreases 8 - offset_x,
        {
            let mut offset_y: u8 = 0;
            while offset_y < sprite_length
                invariant
                    offset_x < 8,
                    offset_y <= sprite_length,
                    sprite.len() == sprite_length,
                    is_sprite_of(sprite_flips@, sprite),
                    sprite_on_display(sprite, start_x, start_y),
                    old(self)@.wf(),
                    self@.wf(),
                    self@ == (Machine { display: self@.display, ..old(self)@ }),
                    forall|x: int, y: int|
                        0 <= x < DISPLAY_WIDTH && 0 <= y < DISPLAY_HEIGHT
                            ==> #[trigger] self@.display[x][y] == (old(self)@.display[x][y] != (
                        sprite_covers(sprite, start_x, start_y, x, y) && (x - start_x < offset_x
                            || (x - start_x == offset_x && y - start_y < offset_y)))),
                decreases sprite_length - offset_y,
            {
                if sprite_flips[offset_y as usize][offset_x as usize] {
                    self.display.flip_pixel(start_x + offset_x, start_y + offset_y);
                }
                offset_y += 1;
            }
            offset_x += 1;
        }
        assert(self@ =~~= old(self)@.execute(
            Instruction::Draw { x_reg_num, y_reg_num, sprite_length },
        ));
        Ok(())
    }

    /// The decimal digits of a byte: hundreds, tens and ones.
    fn bcd(data: u8) -> (digits: (u8, u8, u8))
        ensures
            seq![digits.0, digits.1, digits.2] == decimal_digits(data),
    {
        let first_digit: u8 = data / 100;
        let second_digit: u8 = (data % 100) / 10;
        let third_digit: u8 = data % 10;
        (first_digit, second_digit, third_digit)
    }

    /// Sets VF to 1 for a raised flag and to 0 otherwise.
    fn set_flag_register(&mut self, flag: bool)
        ensures
            final(self)@ == old(self)@.with_flag(flag),
    {
        if flag {
            self.gp_registers[15].set(1);
        } else {
            self.gp_registers[15].set(0);
        }
    }

    /// The value of register V`reg_num`.
    #[must_use]
    pub fn get_register(&self, reg_num: u8) -> (value: u8)
        requires
            reg_num < REGISTER_COUNT,
        ensures
            value == self@.v(reg_num),
    {
        self.gp_registers[reg_num as usize].get()
    }

    /// The value of the index register I.
    #[must_use]
    pub fn get_i(&self) -> (index: u16)
        ensures
            index == self@.index,
    {
        self.i.get()
    }

    /// The address of the next instruction.
    #[must_use]
    pub fn get_pc(&self) -> (pc: Address)
        ensures
            pc == self@.pc,
    {
        self.pc.get()
    }

    /// The return addresses of the calls in progress, oldest first.
    #[must_use]
    pub fn get_stack(&self) -> (stack: &[Address])
        ensures
            stack@ == self@.stack,
    {
        self.stack.as_slice()
    }

    /// The memory, for a host to inspect.
    #[must_use]
    pub fn get_memory(&self) -> (memory: &Ram)
        ensures
            memory@ == self@.memory,
    {
        &self.memory
    }

    /// The display, for a host to render.
    #[must_use]
    pub fn get_display(&self) -> (display: &Chip8Display)
        ensures
            display@ == self@.display,
    {
        &self.display
    }

    /// The display, for a host to render or to change.
    #[must_use]
    pub fn get_display_mut(&mut self) -> (display: &mut Chip8Display)
        ensures
            display@ == old(self)@.display,
            final(self)@ == (Machine { display: final(display)@, ..old(self)@ }),
    {
        &mut self.display
    }
}

/// Whether every pixel that the sprite sets, drawn with its top left corner
/// at column `left` and row `top`, lies on the display.
fn sprite_fits(sprite: &[u8], left: u8, top: u8) -> (fits: bool)
    ensures
        fits == sprite_on_display(sprite@, left, top),
{
    let mut r: usize = 0;
    while r < sprite.len()
        invariant
            r <= sprite@.len(),
            forall|k: int, c: int|
                0 <= k < r && 0 <= c < 8 && #[trigger] sprite_bit(sprite@[k], c) ==> left + c
                    < DISPLAY_WIDTH && top + k < DISPLAY_HEIGHT,
        decreases sprite@.len() - r,
    {
        let mut column: u8 = 0;
        while column < 8
            invariant
                r < sprite@.len(),
                column <= 8,
                forall|k: int, c: int|
                    0 <= k < r && 0 <= c < 8 && #[trigger] sprite_bit(sprite@[k], c) ==> left + c
                        < DISPLAY_WIDTH && top + k < DISPLAY_HEIGHT,
                forall|c: int|
                    0 <= c < column && #[trigger] sprite_bit(sprite@[r as int], c) ==> left + c
                        < DISPLAY_WIDTH && top + r < DISPLAY_HEIGHT,
            decreases 8 - column,
        {
            if sprite[r] & (0x80u8 >> column) != 0 {
                if left as usize + column as usize >= 64 || r >= 32 || top as usize + r >= 32 {
                    assert(sprite_bit(sprite@[r as int], column as int));
                    return false;
                }
            }
            column += 1;
        }
        r += 1;
    }
    true
}

/// A register file with every register zero.
fn cleared_registers() -> (registers: [RegisterV; 16])
    ensures
        forall|r: int| 0 <= r < 16 ==> (#[trigger] registers@[r])@ == 0,
{
    let zero = RegisterV::new();
    [
        zero,
        zero,
        zero,
        zero,
        zero,
        zero,
        zero,
        zero,
        zero,
        zero,
        zero,
        zero,
        zero,
        zero,
        zero,
        zero,
    ]
}

impl Clone for Executor {
    /// A second machine in the same state.
    fn clone(&self) -> (copy: Self)
        ensures
            copy@ == self@,
    {
        let copy = Executor {
            memory: self.memory,
            gp_registers: self.gp_registers,
            display: self.display,
            i: self.i,
            pc: self.pc,
            stack: self.stack.clone(),
            legacy_shift: self.legacy_shift,
        };
        copy
    }
}

impl Default for Executor {
    fn default() -> (executor: Self)
        ensures
            executor@ == Machine::initial(false),
    {
        Executor::new(false)
    }
}

} // verus!
