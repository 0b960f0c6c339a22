//! The register file: sixteen 8-bit general registers, the 16-bit index
//! register, the program counter and a stand-alone carry flag.

use vstd::prelude::*;
use crate::memory::Address;

verus! {

/// Number of general-purpose registers, V0 to VF.
pub const REGISTER_COUNT: usize = 16;

/// Index of VF, the register that arithmetic and shifts also use as a flag.
pub const FLAG_REGISTER: usize = 15;

/// The sum of two bytes as an 8-bit register holds it.
pub open spec fn wrapping_sum(a: u8, b: u8) -> u8 {
    ((a + b) % 256) as u8
}

/// Whether the sum of two bytes does not fit in 8 bits.
pub open spec fn carries(a: u8, b: u8) -> bool {
    a + b > u8::MAX
}

/// The difference `a - b` as an 8-bit register holds it.
pub open spec fn wrapping_difference(a: u8, b: u8) -> u8 {
    ((a - b) % 256) as u8
}

/// The sum of a 16-bit value and a byte as a 16-bit register holds it.
pub open spec fn wrapping_index_sum(index: u16, offset: u8) -> u16 {
    ((index + offset) % 0x1_0000) as u16
}

/// One of the general-purpose registers V0 to VF. Its view is the byte it holds.
#[derive(Debug, Copy, Clone, PartialEq, PartialOrd, Ord, Eq)]
pub struct RegisterV {
    data: u8,
}

impl View for RegisterV {
    type V = u8;

    closed spec fn view(&self) -> u8 {
        self.data
    }
}

impl RegisterV {
    /// A register holding zero.
    #[must_use]
    pub fn new() -> (register: Self)
        ensures
            register@ == 0,
    {
        RegisterV { data: 0 }
    }

    /// The value in this register.
    #[must_use]
    pub fn get(&self) -> (data: u8)
        ensures
            data == self@,
    {
        self.data
    }

    /// Replaces the value in this register.
    pub fn set(&mut self, data: u8)
        ensures
            final(self)@ == data,
    {
        self.data = data;
    }

    /// Adds `value` modulo 256 and reports whether the true sum overflowed.
    pub fn add(&mut self, value: u8) -> (carry: bool)
        ensures
            final(self)@ == wrapping_sum(old(self)@, value),
            carry == carries(old(self)@, value),
    {
        let true_result: u16 = self.data as u16 + value as u16;
        assert(true_result & 0x00FF == true_result % 256) by (bit_vector);
        assert((true_result & 0xFF00 != 0) == (true_result > 255)) by (bit_vector);
        self.data = (true_result & 0x00FF) as u8;
        (true_result & 0xFF00) != 0
    }

    /// Subtracts `value` modulo 256 and reports whether no borrow was
    /// needed, that is whether the register held at least `value`.
    pub fn sub(&mut self, value: u8) -> (no_borrow: bool)
        ensures
            final(self)@ == wrapping_difference(old(self)@, value),
            no_borrow == (old(self)@ >= value),
    {
        let no_borrow = self.data >= value;
        self.data = self.data.wrapping_sub(value);
        no_borrow
    }
}

impl Default for RegisterV {
    fn default() -> (register: Self)
        ensures
            register@ == 0,
    {
        RegisterV::new()
    }
}

/// The index register I, which points at sprites and at blocks of memory.
/// Its view is the 16-bit value it holds.
#[derive(Debug, Copy, Clone, PartialEq, PartialOrd, Ord, Eq)]
pub struct RegisterI {
    data: u16,
}

impl View for RegisterI {
    type V = u16;

    closed spec fn view(&self) -> u16 {
        self.data
    }
}

impl RegisterI {
    /// A register holding zero.
    #[must_use]
    pub fn new() -> (register: Self)
        ensures
            register@ == 0,
    {
        RegisterI { data: 0 }
    }

    /// The value in this register.
    #[must_use]
    pub fn get(&self) -> (data: u16)
        ensures
            data == self@,
    {
        self.data
    }

    /// Replaces the value in this register.
    pub fn set(&mut self, data: u16)
        ensures
            final(self)@ == data,
    {
        self.data = data;
    }

    /// Adds a byte to the register modulo 2^16.
    pub fn add(&mut self, value: u8)
        ensures
            final(self)@ == wrapping_index_sum(old(self)@, value),
    {
        self.data = self.data.wrapping_add(value as u16);
    }
}

impl Default for RegisterI {
    fn default() -> (register: Self)
        ensures
            register@ == 0,
    {
        RegisterI::new()
    }
}

/// The program counter. Its view is the address of the next instruction.
#[derive(Debug, Copy, Clone, PartialEq, PartialOrd, Ord, Eq)]
pub struct RegisterPC {
    data: Address,
}

impl View for RegisterPC {
    type V = Address;

    closed spec fn view(&self) -> Address {
        self.data
    }
}

impl RegisterPC {
    /// A program counter at the start of program memory.
    #[must_use]
    pub fn new() -> (register: Self)
        ensures
            register@ == Address(crate::memory::PROGRAM_START),
    {
        RegisterPC { data: Address(0x200) }
    }

    /// Moves on by one instruction, which is two bytes.
    pub fn inc(&mut self)
        requires
            old(self)@.0 + 2 <= u16::MAX,
        ensures
            final(self)@ == Address((old(self)@.0 + 2) as u16),
    {
        self.data.0 += 2;
    }

    /// The address of the next instruction.
    #[must_use]
    pub fn get(&self) -> (address: Address)
        ensures
            address == self@,
    {
        self.data
    }

    /// Continues execution at `new_address`.
    pub fn set(&mut self, new_address: Address)
        ensures
            final(self)@ == new_address,
    {
        self.data = new_address;
    }
}

impl Default for RegisterPC {
    fn default() -> (register: Self)
        ensures
            register@ == Address(crate::memory::PROGRAM_START),
    {
        RegisterPC::new()
    }
}

/// A carry flag held apart from the general registers. Its view is the flag.
#[derive(Debug, Copy, Clone, PartialEq, PartialOrd, Ord, Eq)]
pub struct RegisterF {
    carry: bool,
}

impl View for RegisterF {
    type V = bool;

    closed spec fn view(&self) -> bool {
        self.carry
    }
}

impl RegisterF {
    /// A cleared flag.
    #[must_use]
    pub fn new() -> (register: Self)
        ensures
            !register@,
    {
        RegisterF { carry: false }
    }

    /// Sets or clears the flag.
    pub fn set_carry(&mut self, value: bool)
        ensures
            final(self)@ == value,
    {
        self.carry = value;
    }
}

impl Default for RegisterF {
    fn default() -> (register: Self)
        ensures
            !register@,
    {
        RegisterF::new()
    }
}

} // verus!
