use rc8::memory::Address;
use rc8::registers::{RegisterF, RegisterI, RegisterPC, RegisterV};

#[test]
fn test_register_v_starts_at_zero() {
    assert_eq!(RegisterV::new().get(), 0);
    assert_eq!(RegisterV::default().get(), 0);
}

#[test]
fn test_register_v_set_and_get() {
    let mut register = RegisterV::new();
    register.set(10);
    assert_eq!(register.get(), 10);
    register.set(255);
    assert_eq!(register.get(), 255);
}

#[test]
fn test_register_v_add_without_carry() {
    let mut register = RegisterV::new();
    register.set(200);
    assert!(!register.add(55));
    assert_eq!(register.get(), 255);
    assert!(!register.add(0));
    assert_eq!(register.get(), 255);
}

#[test]
fn test_register_v_add_with_carry() {
    let mut register = RegisterV::new();
    register.set(250);
    assert!(register.add(10));
    assert_eq!(register.get(), 4);
    register.set(255);
    assert!(register.add(1));
    assert_eq!(register.get(), 0);
    register.set(255);
    assert!(register.add(255));
    assert_eq!(register.get(), 254);
}

#[test]
fn test_register_v_add_every_pair() {
    for a in 0..=255u8 {
        for b in 0..=255u8 {
            let mut register = RegisterV::new();
            register.set(a);
            let carry = register.add(b);
            assert_eq!(register.get(), a.wrapping_add(b));
            assert_eq!(carry, u16::from(a) + u16::from(b) > 255);
        }
    }
}

#[test]
fn test_register_v_sub_without_borrow() {
    let mut register = RegisterV::new();
    register.set(10);
    assert!(register.sub(5));
    assert_eq!(register.get(), 5);
    assert!(register.sub(5));
    assert_eq!(register.get(), 0);
}

#[test]
fn test_register_v_sub_with_borrow() {
    let mut register = RegisterV::new();
    register.set(5);
    assert!(!register.sub(10));
    assert_eq!(register.get(), 251);
    register.set(0);
    assert!(!register.sub(1));
    assert_eq!(register.get(), 255);
}

#[test]
fn test_register_v_sub_every_pair() {
    for a in 0..=255u8 {
        for b in 0..=255u8 {
            let mut register = RegisterV::new();
            register.set(a);
            let no_borrow = register.sub(b);
            assert_eq!(register.get(), a.wrapping_sub(b));
            assert_eq!(no_borrow, a >= b);
        }
    }
}

#[test]
fn test_register_i_set_and_get() {
    let mut register = RegisterI::new();
    assert_eq!(register.get(), 0);
    assert_eq!(RegisterI::default().get(), 0);
    register.set(10);
    assert_eq!(register.get(), 10);
    register.set(0xFFFF);
    assert_eq!(register.get(), 0xFFFF);
}

#[test]
fn test_register_i_add() {
    let mut register = RegisterI::new();
    register.set(0x300);
    register.add(0x20);
    assert_eq!(register.get(), 0x320);
    register.add(0);
    assert_eq!(register.get(), 0x320);
}

#[test]
fn test_register_i_add_wraps_at_16_bits() {
    let mut register = RegisterI::new();
    register.set(0xFFFF);
    register.add(1);
    assert_eq!(register.get(), 0);
    register.set(0xFF80);
    register.add(0xFF);
    assert_eq!(register.get(), 0x7F);
}

#[test]
fn test_register_pc_starts_at_program_memory() {
    assert_eq!(RegisterPC::new().get(), Address(0x200));
    assert_eq!(RegisterPC::default().get(), Address(0x200));
}

#[test]
fn test_register_pc_inc_moves_two_bytes() {
    let mut pc = RegisterPC::new();
    pc.inc();
    assert_eq!(pc.get(), Address(0x202));
    pc.inc();
    assert_eq!(pc.get(), Address(0x204));
    pc.set(Address(0xFFFD));
    pc.inc();
    assert_eq!(pc.get(), Address(0xFFFF));
}

#[test]
fn test_register_pc_set() {
    let mut pc = RegisterPC::new();
    pc.set(Address(0xABC));
    assert_eq!(pc.get(), Address(0xABC));
}

#[test]
fn test_register_f_set_carry() {
    let mut flag = RegisterF::new();
    assert_eq!(flag, RegisterF::default());
    flag.set_carry(true);
    assert_ne!(flag, RegisterF::new());
    let raised = flag;
    flag.set_carry(true);
    assert_eq!(flag, raised);
    flag.set_carry(false);
    assert_eq!(flag, RegisterF::new());
}
