use area8051::{Addr, Isa, Mcu, Mem};

fn run(rom: Vec<u8>, steps: usize) -> Mcu {
    let mut mcu = Mcu::new(rom);
    mcu.reset();
    for _ in 0..steps {
        mcu.step();
    }
    mcu
}

fn psw_flags(mcu: &Mcu) -> (bool, bool, bool) {
    let psw = mcu.load(Addr::Reg(0xD0));
    (psw & 0x80 != 0, psw & 0x40 != 0, psw & 0x04 != 0)
}

#[test]
fn add_immediate_carry() {
    // add a, #1 with a = 0xFF: wraps, carry and auxiliary carry set
    let mut mcu = Mcu::new(vec![0x24, 0x01]);
    mcu.reset();
    mcu.store(Addr::Reg(0xE0), 0xFF);
    mcu.step();
    assert_eq!(mcu.load(Addr::Reg(0xE0)), 0x00);
    assert_eq!(psw_flags(&mcu), (true, true, false));
    assert_eq!(mcu.pc(), 2);
}

#[test]
fn add_immediate_signed_overflow() {
    // add a, #0x7F with a = 0x01: 0x80, signed overflow, no carry
    let mut mcu = Mcu::new(vec![0x24, 0x7F]);
    mcu.reset();
    mcu.store(Addr::Reg(0xE0), 0x01);
    mcu.step();
    assert_eq!(mcu.load(Addr::Reg(0xE0)), 0x80);
    assert_eq!(psw_flags(&mcu), (false, true, true));
}

#[test]
fn add_register_operand() {
    // add a, r0 with a = 0xF0, r0 = 0x20: carry out, no nibble carry
    let mut mcu = Mcu::new(vec![0x28]);
    mcu.reset();
    mcu.store(Addr::Reg(0xE0), 0xF0);
    mcu.store(Addr::Reg(0x00), 0x20);
    mcu.step();
    assert_eq!(mcu.load(Addr::Reg(0xE0)), 0x10);
    assert_eq!(psw_flags(&mcu), (true, false, false));
}

#[test]
fn addc_adds_carry_in() {
    // set carry, then addc a, #0 with a = 0xFF: wraps through the carry
    let mut mcu = Mcu::new(vec![0xD3, 0x34, 0x00]);
    mcu.reset();
    mcu.store(Addr::Reg(0xE0), 0xFF);
    mcu.step();
    mcu.step();
    assert_eq!(mcu.load(Addr::Reg(0xE0)), 0x00);
    assert_eq!(psw_flags(&mcu), (true, true, false));
}

#[test]
fn subb_borrows() {
    // subb a, #1 with a = 0 and carry clear: 0xFF, borrow set
    let mut mcu = Mcu::new(vec![0x94, 0x01]);
    mcu.reset();
    mcu.step();
    assert_eq!(mcu.load(Addr::Reg(0xE0)), 0xFF);
    assert_eq!(psw_flags(&mcu), (true, true, false));
}

#[test]
fn subb_uses_carry_in() {
    // set carry, then subb a, #0 with a = 5: result 4
    let mut mcu = Mcu::new(vec![0xD3, 0x94, 0x00]);
    mcu.reset();
    mcu.store(Addr::Reg(0xE0), 0x05);
    mcu.step();
    mcu.step();
    assert_eq!(mcu.load(Addr::Reg(0xE0)), 0x04);
    assert_eq!(psw_flags(&mcu), (false, false, false));
}

#[test]
fn mul_ab_wide_product() {
    // mul ab with a = b = 0x10: product 0x100, overflow set, carry cleared
    let mut mcu = Mcu::new(vec![0xA4]);
    mcu.reset();
    mcu.store(Addr::Reg(0xE0), 0x10);
    mcu.store(Addr::Reg(0xF0), 0x10);
    mcu.store(Addr::Reg(0xD0), 0x80);
    mcu.step();
    assert_eq!(mcu.load(Addr::Reg(0xE0)), 0x00);
    assert_eq!(mcu.load(Addr::Reg(0xF0)), 0x01);
    assert_eq!(psw_flags(&mcu), (false, false, true));
}

#[test]
fn mul_ab_small_product() {
    let mut mcu = Mcu::new(vec![0xA4]);
    mcu.reset();
    mcu.store(Addr::Reg(0xE0), 0x0F);
    mcu.store(Addr::Reg(0xF0), 0x0F);
    mcu.step();
    assert_eq!(mcu.load(Addr::Reg(0xE0)), 0xE1);
    assert_eq!(mcu.load(Addr::Reg(0xF0)), 0x00);
    assert_eq!(psw_flags(&mcu), (false, false, false));
}

#[test]
fn inc_wraps_to_zero() {
    // inc a with a = 0xFF
    let mut mcu = Mcu::new(vec![0x04]);
    mcu.reset();
    mcu.store(Addr::Reg(0xE0), 0xFF);
    mcu.step();
    assert_eq!(mcu.load(Addr::Reg(0xE0)), 0x00);
    // flags untouched by inc
    assert_eq!(psw_flags(&mcu), (false, false, false));
}

#[test]
fn dec_wraps_to_ff() {
    // dec a with a = 0
    let mut mcu = Mcu::new(vec![0x14]);
    mcu.reset();
    mcu.step();
    assert_eq!(mcu.load(Addr::Reg(0xE0)), 0xFF);
}

#[test]
fn inc_direct_consumes_two_bytes() {
    // inc 0x30
    let mut mcu = Mcu::new(vec![0x05, 0x30]);
    mcu.reset();
    mcu.store(Addr::Reg(0x30), 0x41);
    mcu.step();
    assert_eq!(mcu.load(Addr::Reg(0x30)), 0x42);
    assert_eq!(mcu.pc(), 2);
}

#[test]
fn inc_indirect_reaches_upper_iram() {
    // mov r0, #0x90; inc @r0: touches upper internal RAM, not the SFR at 0x90
    let mut mcu = Mcu::new(vec![0x78, 0x90, 0x06]);
    mcu.reset();
    mcu.store(Addr::IRam(0x90), 0x10);
    mcu.step();
    mcu.step();
    assert_eq!(mcu.load(Addr::IRam(0x90)), 0x11);
    assert_eq!(mcu.load(Addr::Reg(0x90)), 0x00);
}

#[test]
fn inc_dptr_wraps() {
    // mov dptr, #0xFFFF; inc dptr
    let mut mcu = Mcu::new(vec![0x90, 0xFF, 0xFF, 0xA3]);
    mcu.reset();
    mcu.step();
    assert_eq!(mcu.load(Addr::Reg(0x82)), 0xFF);
    assert_eq!(mcu.load(Addr::Reg(0x83)), 0xFF);
    mcu.step();
    assert_eq!(mcu.load(Addr::Reg(0x82)), 0x00);
    assert_eq!(mcu.load(Addr::Reg(0x83)), 0x00);
}

#[test]
fn swap_twice_is_identity() {
    let mut mcu = Mcu::new(vec![0xC4, 0xC4]);
    mcu.reset();
    mcu.store(Addr::Reg(0xE0), 0x5A);
    mcu.step();
    assert_eq!(mcu.load(Addr::Reg(0xE0)), 0xA5);
    mcu.step();
    assert_eq!(mcu.load(Addr::Reg(0xE0)), 0x5A);
}

#[test]
fn cpl_twice_is_identity() {
    let mut mcu = Mcu::new(vec![0xF4, 0xF4]);
    mcu.reset();
    mcu.store(Addr::Reg(0xE0), 0x3C);
    mcu.step();
    assert_eq!(mcu.load(Addr::Reg(0xE0)), 0xC3);
    mcu.step();
    assert_eq!(mcu.load(Addr::Reg(0xE0)), 0x3C);
}

#[test]
fn rr_then_rl_is_identity() {
    let mut mcu = Mcu::new(vec![0x03, 0x23]);
    mcu.reset();
    mcu.store(Addr::Reg(0xE0), 0x81);
    mcu.step();
    assert_eq!(mcu.load(Addr::Reg(0xE0)), 0xC0);
    mcu.step();
    assert_eq!(mcu.load(Addr::Reg(0xE0)), 0x81);
}

#[test]
fn rrc_then_rlc_restores_a_and_carry() {
    let mut mcu = Mcu::new(vec![0x13, 0x33]);
    mcu.reset();
    mcu.store(Addr::Reg(0xE0), 0x81);
    mcu.store(Addr::Reg(0xD0), 0x80); // carry set
    mcu.step();
    // carry rotated in at the top, old bit 0 became carry
    assert_eq!(mcu.load(Addr::Reg(0xE0)), 0xC0);
    assert_eq!(mcu.load(Addr::Reg(0xD0)) & 0x80, 0x80);
    mcu.step();
    assert_eq!(mcu.load(Addr::Reg(0xE0)), 0x81);
    assert_eq!(mcu.load(Addr::Reg(0xD0)) & 0x80, 0x80);
}

#[test]
fn clr_setb_clr_keeps_other_bits() {
    // clr 0x12; setb 0x12; clr 0x12: bit 2 of the byte at 0x22
    let mut mcu = Mcu::new(vec![0xC2, 0x12, 0xD2, 0x12, 0xC2, 0x12]);
    mcu.reset();
    mcu.store(Addr::Reg(0x22), 0xFF);
    mcu.step();
    assert_eq!(mcu.load(Addr::Reg(0x22)), 0xFB);
    mcu.step();
    assert_eq!(mcu.load(Addr::Reg(0x22)), 0xFF);
    mcu.step();
    assert_eq!(mcu.load(Addr::Reg(0x22)), 0xFB);
}

#[test]
fn setb_clr_carry() {
    let mut mcu = Mcu::new(vec![0xD3, 0xC3]);
    mcu.reset();
    mcu.step();
    assert_eq!(mcu.load(Addr::Reg(0xD0)), 0x80);
    mcu.step();
    assert_eq!(mcu.load(Addr::Reg(0xD0)), 0x00);
}

#[test]
fn mov_bit_from_carry() {
    // setb c; mov 0x00, c: bit 0 of the byte at 0x20
    let mut mcu = Mcu::new(vec![0xD3, 0x92, 0x00]);
    mcu.reset();
    mcu.step();
    mcu.step();
    assert_eq!(mcu.load(Addr::Reg(0x20)), 0x01);
}

#[test]
fn jbs_clears_and_jumps() {
    // jbs 0x00, 0x10: bit set, so it is cleared and the jump taken
    let mut mcu = Mcu::new(vec![0x10, 0x00, 0x10]);
    mcu.reset();
    mcu.store(Addr::Reg(0x20), 0x01);
    mcu.step();
    assert_eq!(mcu.load(Addr::Reg(0x20)), 0x00);
    assert_eq!(mcu.pc(), 0x13);
}

#[test]
fn jb_jnb_branching() {
    let mut mcu = Mcu::new(vec![0x20, 0x00, 0x10]);
    mcu.reset();
    mcu.store(Addr::Reg(0x20), 0x01);
    mcu.step();
    assert_eq!(mcu.pc(), 0x13);
    assert_eq!(mcu.load(Addr::Reg(0x20)), 0x01); // jb does not clear

    let mut mcu = Mcu::new(vec![0x30, 0x00, 0x10]);
    mcu.reset();
    mcu.step();
    assert_eq!(mcu.pc(), 0x13); // bit clear, jnb jumps
}

#[test]
fn conditional_jumps_on_flags_and_acc() {
    // jc taken only with carry
    let mut mcu = Mcu::new(vec![0x40, 0x05]);
    mcu.reset();
    mcu.step();
    assert_eq!(mcu.pc(), 2);
    let mut mcu = Mcu::new(vec![0x40, 0x05]);
    mcu.reset();
    mcu.store(Addr::Reg(0xD0), 0x80);
    mcu.step();
    assert_eq!(mcu.pc(), 7);
    // jnc mirrored
    let mut mcu = Mcu::new(vec![0x50, 0x05]);
    mcu.reset();
    mcu.step();
    assert_eq!(mcu.pc(), 7);
    // jz taken with a == 0, jnz with a != 0
    let mut mcu = Mcu::new(vec![0x60, 0x05]);
    mcu.reset();
    mcu.step();
    assert_eq!(mcu.pc(), 7);
    let mut mcu = Mcu::new(vec![0x70, 0x05]);
    mcu.reset();
    mcu.store(Addr::Reg(0xE0), 1);
    mcu.step();
    assert_eq!(mcu.pc(), 7);
}

#[test]
fn sjmp_negative_offset() {
    let mut mcu = Mcu::new(vec![0x00, 0x80, 0xFD]);
    mcu.reset();
    mcu.step();
    mcu.step();
    // offset -3 from pc 3 lands back at 0
    assert_eq!(mcu.pc(), 0);
}

#[test]
fn ljmp_sets_pc() {
    let mut mcu = Mcu::new(vec![0x02, 0x12, 0x34]);
    mcu.reset();
    mcu.step();
    assert_eq!(mcu.pc(), 0x1234);
}

#[test]
fn jmp_a_plus_dptr() {
    let mut mcu = Mcu::new(vec![0x73]);
    mcu.reset();
    mcu.store(Addr::Reg(0x82), 0x00);
    mcu.store(Addr::Reg(0x83), 0x20);
    mcu.store(Addr::Reg(0xE0), 0x05);
    mcu.step();
    assert_eq!(mcu.pc(), 0x2005);
}

#[test]
fn movc_reads_code_table() {
    // movc a, @a+dptr with dptr = 4, a = 2: reads pmem[6]
    let mut mcu = Mcu::new(vec![0x93, 0, 0, 0, 0, 0, 0x99]);
    mcu.reset();
    mcu.store(Addr::Reg(0x82), 0x04);
    mcu.store(Addr::Reg(0xE0), 0x02);
    mcu.step();
    assert_eq!(mcu.load(Addr::Reg(0xE0)), 0x99);
}

#[test]
fn movx_dptr_round_trip() {
    // movx @dptr, a then movx a, @dptr
    let mut mcu = Mcu::new(vec![0xF0, 0xE4, 0xE0]);
    mcu.reset();
    mcu.store(Addr::Reg(0x82), 0x34);
    mcu.store(Addr::Reg(0x83), 0x12);
    mcu.store(Addr::Reg(0xE0), 0x77);
    mcu.step();
    assert_eq!(mcu.load(Addr::XRam(0x1234)), 0x77);
    mcu.step(); // clr a
    assert_eq!(mcu.load(Addr::Reg(0xE0)), 0x00);
    mcu.step();
    assert_eq!(mcu.load(Addr::Reg(0xE0)), 0x77);
}

#[test]
fn movx_ri_uses_p2_high_byte() {
    // movx @r0, a then movx a, @r1 with p2 as the high address byte
    let mut mcu = Mcu::new(vec![0xF2, 0xE4, 0xE3]);
    mcu.reset();
    mcu.store(Addr::Reg(0xA0), 0x12); // p2
    mcu.store(Addr::Reg(0x00), 0x34); // r0
    mcu.store(Addr::Reg(0x01), 0x34); // r1
    mcu.store(Addr::Reg(0xE0), 0x66);
    mcu.step();
    assert_eq!(mcu.load(Addr::XRam(0x1234)), 0x66);
    mcu.step();
    mcu.step();
    assert_eq!(mcu.load(Addr::Reg(0xE0)), 0x66);
}

#[test]
fn logic_on_acc() {
    // orl a, #0x0F; anl a, #0x3C; xrl a, #0xFF
    let mut mcu = Mcu::new(vec![0x44, 0x0F, 0x54, 0x3C, 0x64, 0xFF]);
    mcu.reset();
    mcu.store(Addr::Reg(0xE0), 0x30);
    mcu.step();
    assert_eq!(mcu.load(Addr::Reg(0xE0)), 0x3F);
    mcu.step();
    assert_eq!(mcu.load(Addr::Reg(0xE0)), 0x3C);
    mcu.step();
    assert_eq!(mcu.load(Addr::Reg(0xE0)), 0xC3);
}

#[test]
fn logic_on_direct() {
    // orl 0x30, a; anl 0x30, #0x0F; orl 0x31, #0xF0; anl 0x32, a
    let mut mcu = Mcu::new(vec![0x42, 0x30, 0x53, 0x30, 0x0F, 0x43, 0x31, 0xF0, 0x52, 0x32]);
    mcu.reset();
    mcu.store(Addr::Reg(0xE0), 0x55);
    mcu.store(Addr::Reg(0x30), 0x0A);
    mcu.store(Addr::Reg(0x31), 0x01);
    mcu.store(Addr::Reg(0x32), 0xFF);
    mcu.step();
    assert_eq!(mcu.load(Addr::Reg(0x30)), 0x5F);
    mcu.step();
    assert_eq!(mcu.load(Addr::Reg(0x30)), 0x0F);
    mcu.step();
    assert_eq!(mcu.load(Addr::Reg(0x31)), 0xF1);
    mcu.step();
    assert_eq!(mcu.load(Addr::Reg(0x32)), 0x55);
}

#[test]
fn mov_family() {
    // mov a, #0x12; mov 0x30, a; mov 0x31, 0x30; mov r1, 0x31; mov a, r1
    let mut mcu = Mcu::new(vec![0x74, 0x12, 0xF5, 0x30, 0x85, 0x30, 0x31, 0xA9, 0x31, 0xE4, 0xE9]);
    mcu.reset();
    mcu.step();
    assert_eq!(mcu.load(Addr::Reg(0xE0)), 0x12);
    mcu.step();
    assert_eq!(mcu.load(Addr::Reg(0x30)), 0x12);
    mcu.step();
    assert_eq!(mcu.load(Addr::Reg(0x31)), 0x12);
    mcu.step();
    assert_eq!(mcu.load(Addr::Reg(0x01)), 0x12);
    mcu.step(); // clr a
    mcu.step(); // mov a, r1
    assert_eq!(mcu.load(Addr::Reg(0xE0)), 0x12);
    assert_eq!(mcu.pc(), 11);
}

#[test]
fn mov_direct_to_operand_order() {
    // mov 0x40, r0: the direct address byte comes first
    let mut mcu = Mcu::new(vec![0x88, 0x40]);
    mcu.reset();
    mcu.store(Addr::Reg(0x00), 0x9C);
    mcu.step();
    assert_eq!(mcu.load(Addr::Reg(0x40)), 0x9C);
}

#[test]
fn xch_swaps_acc_and_operand() {
    let mut mcu = Mcu::new(vec![0xC9]);
    mcu.reset();
    mcu.store(Addr::Reg(0xE0), 0x11);
    mcu.store(Addr::Reg(0x01), 0x22);
    mcu.step();
    assert_eq!(mcu.load(Addr::Reg(0xE0)), 0x22);
    assert_eq!(mcu.load(Addr::Reg(0x01)), 0x11);
}

#[test]
fn push_pop_direct() {
    // push 0x30; pop 0x31
    let mut mcu = Mcu::new(vec![0xC0, 0x30, 0xD0, 0x31]);
    mcu.reset();
    mcu.store(Addr::Reg(0x30), 0x7E);
    mcu.step();
    assert_eq!(mcu.load(Addr::Reg(0x81)), 8);
    assert_eq!(mcu.load(Addr::IRam(8)), 0x7E);
    mcu.step();
    assert_eq!(mcu.load(Addr::Reg(0x81)), 7);
    assert_eq!(mcu.load(Addr::Reg(0x31)), 0x7E);
}

#[test]
fn djnz_register_loops() {
    // djnz r0, -2: loops until r0 reaches zero
    let mut mcu = Mcu::new(vec![0xD8, 0xFE]);
    mcu.reset();
    mcu.store(Addr::Reg(0x00), 2);
    mcu.step();
    assert_eq!(mcu.load(Addr::Reg(0x00)), 1);
    assert_eq!(mcu.pc(), 0);
    mcu.step();
    assert_eq!(mcu.load(Addr::Reg(0x00)), 0);
    assert_eq!(mcu.pc(), 2);
}

#[test]
fn djnz_direct() {
    // djnz 0x30, 0x10
    let mut mcu = Mcu::new(vec![0xD5, 0x30, 0x10]);
    mcu.reset();
    mcu.store(Addr::Reg(0x30), 1);
    mcu.step();
    assert_eq!(mcu.load(Addr::Reg(0x30)), 0);
    assert_eq!(mcu.pc(), 3);
}

#[test]
fn run_helper_counts_steps() {
    let mcu = run(vec![0x00, 0x00, 0x00], 3);
    assert_eq!(mcu.pc(), 3);
}
