use area8051::{Addr, Isa, Mcu, Mem, Reg};

fn flags(mcu: &Mcu) -> (bool, bool, bool) {
    let psw = mcu.load(Addr::Reg(0xD0));
    (psw & 0x80 != 0, psw & 0x40 != 0, psw & 0x04 != 0)
}

#[test]
fn low_halves_alias() {
    let mut mcu = Mcu::new(vec![]);
    for i in 0..0x80u8 {
        mcu.store(Addr::Reg(i), i ^ 0x5A);
        assert_eq!(mcu.load(Addr::IRam(i)), i ^ 0x5A);
    }
    for i in 0..0x80u8 {
        mcu.store(Addr::IRam(i), i ^ 0xA5);
        assert_eq!(mcu.load(Addr::Reg(i)), i ^ 0xA5);
    }
}

#[test]
fn high_halves_disjoint() {
    let mut mcu = Mcu::new(vec![]);
    mcu.store(Addr::Reg(0x90), 0x11);
    mcu.store(Addr::IRam(0x90), 0x22);
    assert_eq!(mcu.load(Addr::Reg(0x90)), 0x11);
    assert_eq!(mcu.load(Addr::IRam(0x90)), 0x22);
}

#[test]
fn xram_and_pmem_are_separate() {
    let mut mcu = Mcu::new(vec![0xAA, 0xBB]);
    assert_eq!(mcu.load(Addr::PMem(0)), 0xAA);
    assert_eq!(mcu.load(Addr::PMem(1)), 0xBB);
    assert_eq!(mcu.load(Addr::PMem(2)), 0x00);
    assert_eq!(mcu.load(Addr::PMem(0xFFFF)), 0x00);
    mcu.store(Addr::XRam(0), 0x77);
    assert_eq!(mcu.load(Addr::XRam(0)), 0x77);
    assert_eq!(mcu.load(Addr::PMem(0)), 0xAA);
}

#[test]
fn reset_state() {
    let mut mcu = Mcu::new(vec![0x00]);
    mcu.set_pc(0x1234);
    for i in 0..=0xFFu8 {
        mcu.store(Addr::Reg(i), 0xEE);
    }
    mcu.store(Addr::IRam(0x90), 0x55);
    mcu.store(Addr::XRam(0x10), 0x66);
    mcu.reset();
    assert_eq!(mcu.pc(), 0);
    assert_eq!(mcu.load(Addr::Reg(0x81)), 7);
    for i in 0..0x80u8 {
        assert_eq!(mcu.load(Addr::IRam(i)), 0);
    }
    for i in 0..=0xFFu8 {
        if i != 0x81 {
            assert_eq!(mcu.load(Addr::Reg(i)), 0);
        }
    }
    // the upper half of internal RAM and external RAM are kept
    assert_eq!(mcu.load(Addr::IRam(0x90)), 0x55);
    assert_eq!(mcu.load(Addr::XRam(0x10)), 0x66);
}

#[test]
fn push_pop_round_trip() {
    let mut mcu = Mcu::new(vec![]);
    mcu.reset();
    let sp0 = mcu.load(Addr::Reg(0x81));
    mcu.push_sp(0xAB);
    assert_eq!(mcu.load(Addr::Reg(0x81)), sp0 + 1);
    assert_eq!(mcu.load(Addr::IRam(sp0 + 1)), 0xAB);
    let x = mcu.pop_sp();
    assert_eq!(x, 0xAB);
    assert_eq!(mcu.load(Addr::Reg(0x81)), sp0);
}

#[test]
fn stack_pointer_wraps() {
    let mut mcu = Mcu::new(vec![]);
    mcu.reset();
    mcu.store(Addr::Reg(0x81), 0xFF);
    mcu.push_sp(0x42);
    assert_eq!(mcu.load(Addr::Reg(0x81)), 0x00);
    assert_eq!(mcu.load(Addr::IRam(0x00)), 0x42);
    let x = mcu.pop_sp();
    assert_eq!(x, 0x42);
    assert_eq!(mcu.load(Addr::Reg(0x81)), 0xFF);
}

#[test]
fn update_psw_keeps_reserved_bits() {
    let mut mcu = Mcu::new(vec![]);
    mcu.reset();
    // user flag, reserved bit, parity bit and bank bits set by hand
    mcu.store(Addr::Reg(0xD0), 0x3B);
    mcu.update_psw(true, false, true);
    let psw = mcu.load(Addr::Reg(0xD0));
    assert_eq!(psw & 0x3B, 0x3B);
    assert_eq!(psw & 0x80, 0x80);
    assert_eq!(psw & 0x40, 0x00);
    assert_eq!(psw & 0x04, 0x04);
    mcu.update_psw(false, true, false);
    let psw = mcu.load(Addr::Reg(0xD0));
    assert_eq!(psw & 0x3B, 0x3B);
    assert_eq!(psw & 0x80, 0x00);
    assert_eq!(psw & 0x40, 0x40);
    assert_eq!(psw & 0x04, 0x00);
}

#[test]
fn register_bank_addressing() {
    let mut mcu = Mcu::new(vec![]);
    mcu.reset();
    assert_eq!(mcu.r(0), Addr::Reg(0x00));
    assert_eq!(mcu.r(7), Addr::Reg(0x07));
    mcu.store(Addr::Reg(0xD0), 0x08); // bank 1
    assert_eq!(mcu.r(0), Addr::Reg(0x08));
    mcu.store(Addr::Reg(0xD0), 0x10); // bank 2
    assert_eq!(mcu.r(3), Addr::Reg(0x13));
    mcu.store(Addr::Reg(0xD0), 0x18); // bank 3
    assert_eq!(mcu.r(7), Addr::Reg(0x1F));
}

#[test]
fn bit_addresses_decode() {
    let mcu = Mcu::new(vec![]);
    // dense region: bits 0x00-0x7F cover bytes 0x20-0x2F
    assert_eq!(mcu.bit(0x00), (Addr::Reg(0x20), 0x01));
    assert_eq!(mcu.bit(0x07), (Addr::Reg(0x20), 0x80));
    assert_eq!(mcu.bit(0x10), (Addr::Reg(0x22), 0x01));
    assert_eq!(mcu.bit(0x7F), (Addr::Reg(0x2F), 0x80));
    // SFR region: every eighth byte from 0x80
    assert_eq!(mcu.bit(0x80), (Addr::Reg(0x80), 0x01));
    assert_eq!(mcu.bit(0xD0), (Addr::Reg(0xD0), 0x01));
    assert_eq!(mcu.bit(0xD7), (Addr::Reg(0xD0), 0x80));
    assert_eq!(mcu.bit(0xFF), (Addr::Reg(0xF8), 0x80));
}

#[test]
fn dptr_follows_dps() {
    let mut mcu = Mcu::new(vec![]);
    mcu.reset();
    assert_eq!(mcu.dptr(false), Addr::Reg(0x82));
    assert_eq!(mcu.dptr(true), Addr::Reg(0x83));
    mcu.store(Addr::Reg(0x86), 1);
    assert_eq!(mcu.dptr(false), Addr::Reg(0x84));
    assert_eq!(mcu.dptr(true), Addr::Reg(0x85));
}

#[test]
fn fixed_register_addresses() {
    let mcu = Mcu::new(vec![]);
    assert_eq!(mcu.a(), Addr::Reg(0xE0));
    assert_eq!(mcu.b(), Addr::Reg(0xF0));
    assert_eq!(mcu.sp(), Addr::Reg(0x81));
    assert_eq!(mcu.psw(), Addr::Reg(0xD0));
    assert_eq!(mcu.dps(), Addr::Reg(0x86));
    assert_eq!(mcu.p(0), Addr::Reg(0x80));
    assert_eq!(mcu.p(1), Addr::Reg(0x90));
    assert_eq!(mcu.p(2), Addr::Reg(0xA0));
    assert_eq!(mcu.p(3), Addr::Reg(0xB0));
}

#[test]
fn defined_opcode_predicate() {
    assert!(area8051::semantics::is_op_defined(0x00));
    assert!(area8051::semantics::is_op_defined(0x85));
    assert!(area8051::semantics::is_op_defined(0xFF));
    assert!(area8051::semantics::is_op_defined(0xD5));
    assert!(!area8051::semantics::is_op_defined(0x01));
    assert!(!area8051::semantics::is_op_defined(0x11));
    assert!(!area8051::semantics::is_op_defined(0xA5));
    assert!(!area8051::semantics::is_op_defined(0xD6));
    assert!(!area8051::semantics::is_op_defined(0xE1));
}

#[test]
fn reljmp_wraps_both_ways() {
    let mut mcu = Mcu::new(vec![]);
    mcu.set_pc(0xFFFF);
    mcu.reljmp(1);
    assert_eq!(mcu.pc(), 0);
    mcu.set_pc(0);
    mcu.reljmp(-1);
    assert_eq!(mcu.pc(), 0xFFFF);
    mcu.set_pc(0x100);
    mcu.reljmp(-128);
    assert_eq!(mcu.pc(), 0x80);
}

#[test]
fn reset_clears_flags() {
    let mut mcu = Mcu::new(vec![]);
    mcu.store(Addr::Reg(0xD0), 0xFF);
    mcu.reset();
    assert_eq!(flags(&mcu), (false, false, false));
}
