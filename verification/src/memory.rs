//! The 4 KiB address space of the machine and bounds-checked access to it.
//!
//! Every address below [`MEMORY_SIZE`] may be read and written, the bytes
//! below [`PROGRAM_START`] included. Words are big-endian and are read at
//! even addresses only.

use vstd::prelude::*;

verus! {

/// Number of bytes of RAM.
pub const MEMORY_SIZE: usize = 4096;

/// Address at which programs are loaded and at which execution starts.
pub const PROGRAM_START: u16 = 0x200;

/// A pointer into the machine's memory. Any 16-bit value can be held; only
/// values below [`MEMORY_SIZE`] name a byte of RAM.
#[derive(Debug, Clone, Copy, PartialEq, PartialOrd, Ord, Eq, Structural)]
pub struct Address(pub u16);

impl Address {
    /// Whether the address names a byte of RAM.
    pub open spec fn in_bounds(self) -> bool {
        self.0 < MEMORY_SIZE
    }

    /// Whether a 16-bit word may be fetched from the address.
    pub open spec fn aligned(self) -> bool {
        self.0 % 2 == 0
    }
}

/// Why a memory access was refused. Each variant carries the offending address.
#[derive(Debug, Clone, Copy, PartialEq, PartialOrd, Ord, Eq, Structural)]
pub enum MemoryAccessError {
    /// The address names no byte of RAM.
    AddressOutOfBounds(Address),
    /// A word was asked for at an odd address.
    AddressUnaligned(Address),
}

/// RAM with every byte zero.
pub open spec fn zeroed_memory() -> Seq<u8> {
    Seq::new(MEMORY_SIZE as nat, |a: int| 0u8)
}

/// The byte at `address`, or the refusal of an address outside RAM.
pub open spec fn read_byte(memory: Seq<u8>, address: Address) -> Result<u8, MemoryAccessError> {
    if address.in_bounds() {
        Ok(memory[address.0 as int])
    } else {
        Err(MemoryAccessError::AddressOutOfBounds(address))
    }
}

/// The big-endian 16-bit word whose high byte is at `address`. Alignment is
/// checked before bounds, so an odd address is always reported as unaligned.
pub open spec fn read_word(memory: Seq<u8>, address: Address) -> Result<u16, MemoryAccessError> {
    if !address.aligned() {
        Err(MemoryAccessError::AddressUnaligned(address))
    } else if !address.in_bounds() {
        Err(MemoryAccessError::AddressOutOfBounds(address))
    } else {
        Ok((memory[address.0 as int] * 256 + memory[address.0 + 1]) as u16)
    }
}

/// `memory` with `value` stored at `address`. An address outside RAM
/// changes nothing.
pub open spec fn write_byte(memory: Seq<u8>, address: Address, value: u8) -> Seq<u8> {
    if address.in_bounds() {
        memory.update(address.0 as int, value)
    } else {
        memory
    }
}

/// `memory` with `program` copied in from [`PROGRAM_START`] on.
pub open spec fn with_program(memory: Seq<u8>, program: Seq<u8>) -> Seq<u8> {
    Seq::new(
        memory.len(),
        |a: int|
            if PROGRAM_START <= a < PROGRAM_START + program.len() {
                program[a - PROGRAM_START]
            } else {
                memory[a]
            },
    )
}

/// Whether a program of `len` bytes fits between [`PROGRAM_START`] and the end of RAM.
pub open spec fn program_fits(len: nat) -> bool {
    PROGRAM_START + len <= MEMORY_SIZE
}

/// The address one past the end of a program of `len` bytes, reduced modulo
/// 2^16 so that it can be held in an [`Address`].
pub open spec fn program_end(len: nat) -> Address {
    Address(((PROGRAM_START + len) % 0x1_0000) as u16)
}

/// A program that fits is read back unchanged: after loading, the byte at
/// offset `k` from [`PROGRAM_START`] is the program's byte `k`.
pub proof fn lemma_program_read_back(memory: Seq<u8>, program: Seq<u8>, k: int)
    requires
        memory.len() == MEMORY_SIZE,
        program_fits(program.len()),
        0 <= k < program.len(),
    ensures
        read_byte(with_program(memory, program), Address((PROGRAM_START + k) as u16)) == Ok::<
            u8,
            MemoryAccessError,
        >(program[k]),
{
}

/// Loading a program changes no byte outside the program's range.
pub proof fn lemma_program_leaves_rest(memory: Seq<u8>, program: Seq<u8>, a: int)
    requires
        memory.len() == MEMORY_SIZE,
        0 <= a < MEMORY_SIZE,
        !(PROGRAM_START <= a < PROGRAM_START + program.len()),
    ensures
        with_program(memory, program)[a] == memory[a],
{
}

/// A word read at an odd address is refused as unaligned, whatever the
/// address; at an even address outside RAM it is refused as out of bounds;
/// at an even address inside RAM it succeeds.
pub proof fn lemma_word_access(memory: Seq<u8>, address: Address)
    ensures
        address.0 % 2 == 1 ==> read_word(memory, address) == Err::<u16, MemoryAccessError>(
            MemoryAccessError::AddressUnaligned(address),
        ),
        address.0 % 2 == 0 && address.0 >= MEMORY_SIZE ==> read_word(memory, address) == Err::<
            u16,
            MemoryAccessError,
        >(MemoryAccessError::AddressOutOfBounds(address)),
        address.0 % 2 == 0 && address.0 < MEMORY_SIZE ==> read_word(memory, address) is Ok,
{
}

/// A byte read succeeds exactly at the addresses below [`MEMORY_SIZE`], so
/// the last byte of RAM, at 4095, can be read and the address after it
/// cannot.
pub proof fn lemma_byte_access(memory: Seq<u8>, address: Address)
    ensures
        read_byte(memory, address) is Ok <==> address.0 < MEMORY_SIZE,
        address.0 >= MEMORY_SIZE ==> read_byte(memory, address) == Err::<u8, MemoryAccessError>(
            MemoryAccessError::AddressOutOfBounds(address),
        ),
        read_byte(memory, Address(4095)) == Ok::<u8, MemoryAccessError>(memory[4095]),
{
}

/// The machine's RAM: [`MEMORY_SIZE`] bytes, viewed as a sequence of that length.
#[derive(Debug, Clone, Copy, PartialEq, PartialOrd, Ord, Eq)]
pub struct Ram {
    data: [u8; 4096],
}

impl View for Ram {
    type V = Seq<u8>;

    closed spec fn view(&self) -> Seq<u8> {
        self.data@
    }
}

impl Ram {
    /// The view of any RAM has exactly [`MEMORY_SIZE`] bytes.
    pub broadcast proof fn lemma_len(&self)
        ensures
            #[trigger] self@.len() == MEMORY_SIZE,
    {
    }

    /// RAM with every byte zero.
    #[must_use]
    pub fn new() -> (ram: Self)
        ensures
            ram@ == zeroed_memory(),
    {
        Ram { data: [0; 4096] }
    }

    /// Reads one byte; refuses an address outside RAM.
    pub fn get(&self, address: Address) -> (result: Result<u8, MemoryAccessError>)
        ensures
            result == read_byte(self@, address),
    {
        if address.0 as usize >= self.data.len() {
            return Err(MemoryAccessError::AddressOutOfBounds(address));
        }
        Ok(self.data[address.0 as usize])
    }

    /// Reads the big-endian word at an even address inside RAM.
    pub fn get_wide(&self, address: Address) -> (result: Result<u16, MemoryAccessError>)
        ensures
            result == read_word(self@, address),
    {
        if address.0 % 2 != 0 {
            return Err(MemoryAccessError::AddressUnaligned(address));
        }
        let high: u8 = match self.get(address) {
            Ok(byte) => byte,
            Err(error) => {
                return Err(error);
            },
        };
        let low: u8 = match self.get(Address(address.0 + 1)) {
            Ok(byte) => byte,
            Err(error) => {
                return Err(error);
            },
        };
        let mut data: u16 = (high as u16) << 8;
        data |= low as u16;
        assert(((high as u16) << 8) | (low as u16) == high * 256 + low) by (bit_vector);
        Ok(data)
    }

    /// Stores one byte; refuses an address outside RAM and then changes nothing.
    pub fn set(&mut self, address: Address, value: u8) -> (result: Result<(), MemoryAccessError>)
        ensures
            final(self)@ == write_byte(old(self)@, address, value),
            address.in_bounds() ==> result == Ok::<(), MemoryAccessError>(()),
            !address.in_bounds() ==> result == Err::<(), MemoryAccessError>(
                MemoryAccessError::AddressOutOfBounds(address),
            ),
    {
        if address.0 as usize >= self.data.len() {
            return Err(MemoryAccessError::AddressOutOfBounds(address));
        }
        self.data[address.0 as usize] = value;
        Ok(())
    }

    /// Copies `program` into RAM from [`PROGRAM_START`] on. A program that
    /// does not fit is refused, RAM is then left as it was, and the error
    /// carries the 16-bit address one past the program's end.
    pub fn load_program(&mut self, program: &[u8]) -> (result: Result<(), MemoryAccessError>)
        ensures
            program_fits(program@.len()) ==> result == Ok::<(), MemoryAccessError>(())
                && final(self)@ == with_program(old(self)@, program@),
            !program_fits(program@.len()) ==> result == Err::<(), MemoryAccessError>(
                MemoryAccessError::AddressOutOfBounds(program_end(program@.len())),
            ) && final(self)@ == old(self)@,
    {
        let start: usize = PROGRAM_START as usize;
        let len: usize = program.len();
        if len > MEMORY_SIZE - start {
            let end: usize = (start + len % 0x1_0000) % 0x1_0000;
            return Err(MemoryAccessError::AddressOutOfBounds(Address(end as u16)));
        }
        let mut offset: usize = 0;
        while offset < len
            invariant
                start == PROGRAM_START,
                len == program@.len(),
                program_fits(len as nat),
                offset <= len,
                self@.len() == MEMORY_SIZE,
                forall|a: int|
                    0 <= a < MEMORY_SIZE ==> self@[a] == if start <= a < start + offset {
                        program@[a - start]
                    } else {
                        old(self)@[a]
                    },
            decreases len - offset,
        {
            self.data[start + offset] = program[offset];
            offset += 1;
        }
        Ok(())
    }
}

impl Default for Ram {
    fn default() -> (ram: Self)
        ensures
            ram@ == zeroed_memory(),
    {
        Ram::new()
    }
}

} // verus!
