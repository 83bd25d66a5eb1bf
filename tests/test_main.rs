use rbgb::{CpuFlag, Registers};

fn add(a: u8, b: u8) -> u8 {
    a + b
}

#[test]
fn test_add() {
    assert_eq!(add(2, 3), 5);
}

#[test]
fn power_on_registers() {
    let r = Registers::new();
    assert_eq!(r.af(), 0x01B0);
    assert_eq!(r.sp(), 0xFFFE);
    assert_eq!(r.pc(), 0x0100);
}

#[test]
fn flag_bits_set_and_clear() {
    let mut r = Registers::new();
    r.set_f(0);
    r.flag(CpuFlag::Z, true);
    assert!(r.getflag(CpuFlag::Z));
    assert_eq!(r.f(), 0x40);
    r.flag(CpuFlag::C, true);
    r.flag(CpuFlag::Z, false);
    assert!(!r.getflag(CpuFlag::Z));
    assert_eq!(r.f(), 0x01);
    assert_eq!(r.a(), 0x01);
}

#[test]
fn hl_post_increment_and_decrement() {
    let mut r = Registers::new();
    r.sethl(0xFFFF);
    assert_eq!(r.hli(), 0xFFFF);
    assert_eq!(r.hl(), 0x0000);
    assert_eq!(r.hld(), 0x0000);
    assert_eq!(r.hl(), 0xFFFF);
    r.setaf(0x1234);
    assert_eq!(r.af(), 0x1234);
    r.ex_af();
    assert_eq!(r.af(), 0x0000);
}
