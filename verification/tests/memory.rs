use rc8::memory::{Address, MemoryAccessError, Ram};

#[test]
fn test_get_memory_in_bounds() {
    let ram = Ram::new();
    assert_eq!(ram.get(Address(0x200)), Ok(0));
}

#[test]
fn test_get_memory_high_address() {
    let ram = Ram::new();
    assert_eq!(
        ram.get(Address(4097)),
        Err(MemoryAccessError::AddressOutOfBounds(Address(4097)))
    );
}

#[test]
fn test_get_memory_ram_boundary() {
    let ram = Ram::new();
    assert_eq!(
        ram.get(Address(4096)),
        Err(MemoryAccessError::AddressOutOfBounds(Address(4096)))
    );
    assert_eq!(ram.get(Address(4095)), Ok(0));
}

#[test]
fn test_load_short_program() {
    let mut ram = Ram::new();
    let program = [0x10, 0x20, 0x30, 0x40];
    ram.load_program(&program).unwrap();
    assert_eq!(ram.get(Address(0x200)), Ok(0x10));
    assert_eq!(ram.get(Address(0x201)), Ok(0x20));
    assert_eq!(ram.get(Address(0x202)), Ok(0x30));
    assert_eq!(ram.get(Address(0x203)), Ok(0x40));
}

#[test]
fn test_load_long_program() {
    let mut ram = Ram::new();
    let program = [0x20; (u16::MAX - 0x200) as usize];
    assert_eq!(
        ram.load_program(&program),
        Err(MemoryAccessError::AddressOutOfBounds(Address(u16::MAX)))
    );
}

#[test]
fn test_new_ram_is_zeroed() {
    let ram = Ram::new();
    for address in 0..4096u16 {
        assert_eq!(ram.get(Address(address)), Ok(0));
    }
    assert_eq!(Ram::default(), ram);
}

#[test]
fn test_loaded_program_reads_back() {
    let mut ram = Ram::new();
    let program: Vec<u8> = (0..3584u32).map(|k| (k * 7 + 3) as u8).collect();
    assert_eq!(ram.load_program(&program), Ok(()));
    for (offset, byte) in program.iter().enumerate() {
        assert_eq!(ram.get(Address(0x200 + offset as u16)), Ok(*byte));
    }
}

#[test]
fn test_load_program_leaves_other_bytes() {
    let mut ram = Ram::new();
    ram.set(Address(0x1FF), 0xAA).unwrap();
    ram.set(Address(0x203), 0xBB).unwrap();
    ram.load_program(&[1, 2, 3]).unwrap();
    assert_eq!(ram.get(Address(0x1FF)), Ok(0xAA));
    assert_eq!(ram.get(Address(0x200)), Ok(1));
    assert_eq!(ram.get(Address(0x202)), Ok(3));
    assert_eq!(ram.get(Address(0x203)), Ok(0xBB));
}

#[test]
fn test_load_empty_program() {
    let mut ram = Ram::new();
    assert_eq!(ram.load_program(&[]), Ok(()));
    assert_eq!(ram, Ram::new());
}

#[test]
fn test_load_program_that_fills_memory() {
    let mut ram = Ram::new();
    let program = [0x5A; 4096 - 0x200];
    assert_eq!(ram.load_program(&program), Ok(()));
    assert_eq!(ram.get(Address(4095)), Ok(0x5A));
    assert_eq!(ram.get(Address(0x1FF)), Ok(0));
}

#[test]
fn test_load_program_one_byte_too_long() {
    let mut ram = Ram::new();
    let program = [0x5A; 4096 - 0x200 + 1];
    assert_eq!(
        ram.load_program(&program),
        Err(MemoryAccessError::AddressOutOfBounds(Address(4097)))
    );
    assert_eq!(ram, Ram::new());
}

#[test]
fn test_load_program_error_address_is_reduced_to_16_bits() {
    let mut ram = Ram::new();
    let program = vec![0u8; 0x1_0000];
    assert_eq!(
        ram.load_program(&program),
        Err(MemoryAccessError::AddressOutOfBounds(Address(0x200)))
    );
    let program = vec![0u8; 0x1_0000 - 0x200];
    assert_eq!(
        ram.load_program(&program),
        Err(MemoryAccessError::AddressOutOfBounds(Address(0)))
    );
}

#[test]
fn test_get_wide_is_big_endian() {
    let mut ram = Ram::new();
    ram.load_program(&[0x12, 0x34, 0xAB, 0xCD]).unwrap();
    assert_eq!(ram.get_wide(Address(0x200)), Ok(0x1234));
    assert_eq!(ram.get_wide(Address(0x202)), Ok(0xABCD));
    assert_eq!(ram.get_wide(Address(0x204)), Ok(0));
}

#[test]
fn test_get_wide_odd_address_is_unaligned() {
    let ram = Ram::new();
    assert_eq!(
        ram.get_wide(Address(0x201)),
        Err(MemoryAccessError::AddressUnaligned(Address(0x201)))
    );
    assert_eq!(
        ram.get_wide(Address(4095)),
        Err(MemoryAccessError::AddressUnaligned(Address(4095)))
    );
    assert_eq!(
        ram.get_wide(Address(4097)),
        Err(MemoryAccessError::AddressUnaligned(Address(4097)))
    );
    assert_eq!(
        ram.get_wide(Address(u16::MAX)),
        Err(MemoryAccessError::AddressUnaligned(Address(u16::MAX)))
    );
}

#[test]
fn test_get_wide_outside_memory() {
    let ram = Ram::new();
    assert_eq!(
        ram.get_wide(Address(4096)),
        Err(MemoryAccessError::AddressOutOfBounds(Address(4096)))
    );
    assert_eq!(
        ram.get_wide(Address(0xFFFE)),
        Err(MemoryAccessError::AddressOutOfBounds(Address(0xFFFE)))
    );
    assert_eq!(ram.get_wide(Address(4094)), Ok(0));
}

#[test]
fn test_set_memory() {
    let mut ram = Ram::new();
    assert_eq!(ram.set(Address(0), 7), Ok(()));
    assert_eq!(ram.set(Address(4095), 9), Ok(()));
    assert_eq!(ram.get(Address(0)), Ok(7));
    assert_eq!(ram.get(Address(4095)), Ok(9));
    assert_eq!(ram.get(Address(1)), Ok(0));
    let before = ram;
    assert_eq!(
        ram.set(Address(4096), 1),
        Err(MemoryAccessError::AddressOutOfBounds(Address(4096)))
    );
    assert_eq!(ram, before);
}
