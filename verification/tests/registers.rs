//! Tests of the register file: the 16-bit composite pairs and their
//! consistency with the underlying 8-bit registers.

use discogb::registers::Registers;

fn zeroed() -> Registers {
    Registers { a: 0, f: 0, b: 0, c: 0, d: 0, e: 0, h: 0, l: 0 }
}

#[test]
fn pairs_compose_high_byte_first() {
    let mut regs = zeroed();
    regs.a = 0x12;
    regs.f = 0x34;
    regs.b = 0x56;
    regs.c = 0x78;
    regs.d = 0x9a;
    regs.e = 0xbc;
    regs.h = 0xde;
    regs.l = 0xf0;
    assert_eq!(regs.af(), 0x1234);
    assert_eq!(regs.bc(), 0x5678);
    assert_eq!(regs.de(), 0x9abc);
    assert_eq!(regs.hl(), 0xdef0);
}

#[test]
fn setters_split_into_constituent_bytes() {
    let mut regs = zeroed();
    regs.set_af(0x1234);
    assert_eq!((regs.a, regs.f), (0x12, 0x34));
    regs.set_bc(0x5678);
    assert_eq!((regs.b, regs.c), (0x56, 0x78));
    regs.set_de(0x9abc);
    assert_eq!((regs.d, regs.e), (0x9a, 0xbc));
    regs.set_hl(0xdef0);
    assert_eq!((regs.h, regs.l), (0xde, 0xf0));
}

#[test]
fn set_then_get_round_trips() {
    let mut regs = zeroed();
    regs.set_hl(0xcafe);
    assert_eq!(regs.hl(), 0xcafe);
    regs.set_af(0x0001);
    assert_eq!(regs.af(), 0x0001);
    regs.set_bc(0xffff);
    assert_eq!(regs.bc(), 0xffff);
    regs.set_de(0x0000);
    assert_eq!(regs.de(), 0x0000);
}
