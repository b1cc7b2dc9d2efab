use vstd::prelude::*;
use crate::addr::Addr;
use crate::model::{
    acc_addr, bit_of, breg_addr, psw_addr, sext8, sp_addr, port_addr, wrap16, wrap8, Mach,
};

verus! {

/// Program counter moved by a signed byte offset, wrapping modulo 2^16.
pub open spec fn reljmp_spec(m: Mach, offset: i8) -> Mach {
    m.with_pc(wrap16(m.pc + offset))
}

/// One code byte fetched at the program counter, which then advances by
/// one, wrapping modulo 2^16.
pub open spec fn fetch(m: Mach) -> (Mach, u8) {
    (m.with_pc(wrap16(m.pc + 1)), m.read(Addr::PMem(m.pc)))
}

/// Push: the stack pointer is incremented first, wrapping modulo 256, and
/// the value is stored at the new stack pointer in internal RAM.
pub open spec fn push_spec(m: Mach, value: u8) -> Mach {
    let sp = wrap8(m.read(sp_addr()) + 1);
    m.write(sp_addr(), sp).write(Addr::IRam(sp), value)
}

/// Pop: the value at the stack pointer in internal RAM is read, and the
/// stack pointer is then decremented, wrapping modulo 256.
pub open spec fn pop_spec(m: Mach) -> (Mach, u8) {
    let sp = m.read(sp_addr());
    (m.write(sp_addr(), wrap8(sp - 1)), m.read(Addr::IRam(sp)))
}

/// Flag update: carry, auxiliary carry and overflow are written into PSW
/// bits 7, 6 and 2; every other PSW bit is left as it was.
pub open spec fn update_psw_spec(m: Mach, carry: bool, aux_carry: bool, overflow: bool) -> Mach {
    let p0 = m.read(psw_addr());
    let p1 = if carry { p0 | 0x80 } else { p0 & 0x7F };
    let p2 = if aux_carry { p1 | 0x40 } else { p1 & 0xBF };
    let p3 = if overflow { p2 | 0x04 } else { p2 & 0xFB };
    m.write(psw_addr(), p3)
}

/// Reset: the program counter is cleared, all 256 bytes of the direct
/// space are cleared (the low half of internal RAM and every SFR), and the
/// stack pointer is set to 7. The upper half of internal RAM, program
/// memory and external RAM keep their contents.
pub open spec fn reset_spec(m: Mach) -> Mach {
    Mach {
        pc: 0,
        iram: Seq::new(m.iram.len(), |i: int| if i < 0x80 { 0u8 } else { m.iram[i] }),
        sfr: Seq::new(m.sfr.len(), |i: int| if i == 1 { 7u8 } else { 0u8 }),
        pmem: m.pmem,
        xram: m.xram,
    }
}

/// The operand slot selected by the low nibble of an opcode: the
/// accumulator, a direct address fetched from code, an indirect address
/// through R0 or R1, or Rn itself. Nibbles below 4 select no operand and
/// are never produced by the dispatch table.
pub open spec fn operand_spec(m: Mach, op: u8) -> (Mach, Addr) {
    let n = op & 0xF;
    if n == 0x4 {
        (m, acc_addr())
    } else if n == 0x5 {
        let (m1, d) = fetch(m);
        (m1, Addr::Reg(d))
    } else if n == 0x6 || n == 0x7 {
        (m, Addr::IRam(m.read(m.rn_addr((n - 6) as u8))))
    } else {
        (m, m.rn_addr((n - 8) as u8))
    }
}

/// Carry out of an 8-bit addition.
pub open spec fn add_carry(a: u8, v: u8, cin: u8) -> bool {
    a + v + cin > 0xFF
}

/// Carry out of the low nibble of an 8-bit addition.
pub open spec fn add_aux(a: u8, v: u8, cin: u8) -> bool {
    (a & 0xF) + (v & 0xF) + cin > 0xF
}

/// Signed overflow of an 8-bit addition.
pub open spec fn add_ov(a: u8, v: u8, cin: u8) -> bool {
    let s = sext8(a) + sext8(v) + cin;
    s > 127 || s < -128
}

/// Truncated result of an 8-bit addition.
pub open spec fn add_result(a: u8, v: u8, cin: u8) -> u8 {
    wrap8(a + v + cin)
}

/// Borrow out of an 8-bit subtraction with borrow.
pub open spec fn subb_carry(a: u8, v: u8, cin: u8) -> bool {
    v + cin > a
}

/// Borrow out of the low nibble of an 8-bit subtraction with borrow.
pub open spec fn subb_aux(a: u8, v: u8, cin: u8) -> bool {
    (v & 0xF) + cin > (a & 0xF)
}

/// Signed overflow of an 8-bit subtraction with borrow.
pub open spec fn subb_ov(a: u8, v: u8, cin: u8) -> bool {
    let s = sext8(a) - sext8(v) - cin;
    s > 127 || s < -128
}

/// Truncated result of an 8-bit subtraction with borrow.
pub open spec fn subb_result(a: u8, v: u8, cin: u8) -> u8 {
    wrap8(a - v - cin)
}

/// The current carry flag as 0 or 1.
pub open spec fn carry_in(m: Mach) -> u8 {
    if m.read(psw_addr()) & 0x80 != 0 { 1u8 } else { 0u8 }
}

/// Whether an opcode is in the dispatch table. Executing any other byte is
/// a fatal decode error and is excluded by the precondition of `step`.
pub open spec fn op_defined(op: u8) -> bool {
    ||| op == 0x00
    ||| op == 0x02
    ||| op == 0x03
    ||| (0x04 <= op && op <= 0x0F)
    ||| op == 0x10
    ||| op == 0x12
    ||| op == 0x13
    ||| (0x14 <= op && op <= 0x1F)
    ||| op == 0x20
    ||| op == 0x22
    ||| op == 0x23
    ||| (0x24 <= op && op <= 0x2F)
    ||| op == 0x30
    ||| op == 0x33
    ||| (0x34 <= op && op <= 0x3F)
    ||| op == 0x40
    ||| op == 0x42
    ||| op == 0x43
    ||| (0x44 <= op && op <= 0x4F)
    ||| op == 0x50
    ||| op == 0x52
    ||| op == 0x53
    ||| (0x54 <= op && op <= 0x5F)
    ||| op == 0x60
    ||| (0x64 <= op && op <= 0x6F)
    ||| op == 0x70
    ||| op == 0x73
    ||| (0x74 <= op && op <= 0x7F)
    ||| op == 0x80
    ||| op == 0x85
    ||| (0x86 <= op && op <= 0x8F)
    ||| op == 0x90
    ||| op == 0x92
    ||| op == 0x93
    ||| (0x94 <= op && op <= 0x9F)
    ||| op == 0xA3
    ||| op == 0xA4
    ||| (0xA6 <= op && op <= 0xAF)
    ||| (0xB4 <= op && op <= 0xBF)
    ||| op == 0xC0
    ||| op == 0xC2
    ||| op == 0xC3
    ||| op == 0xC4
    ||| (0xC5 <= op && op <= 0xCF)
    ||| op == 0xD0
    ||| op == 0xD2
    ||| op == 0xD3
    ||| op == 0xD5
    ||| (0xD8 <= op && op <= 0xDF)
    ||| op == 0xE0
    ||| op == 0xE2
    ||| op == 0xE3
    ||| op == 0xE4
    ||| (0xE5 <= op && op <= 0xEF)
    ||| op == 0xF0
    ||| op == 0xF2
    ||| op == 0xF3
    ||| op == 0xF4
    ||| (0xF5 <= op && op <= 0xFF)
}

/// The low nibble of a byte, as the dispatch table selects operand slots
/// by it.
pub proof fn lemma_low_nibble(op: u8)
    by (bit_vector)
    ensures
        op & 0xF == op % 16,
{
}

/// One instruction, executed on the machine `m` from which the opcode `op`
/// has already been fetched. The order of reads, fetches and writes is
/// exactly the order the executable `step` performs them in.
pub open spec fn dispatch(m: Mach, op: u8) -> Mach {
    if op == 0x00 {
        // nop
        m
    } else if op == 0x02 {
        // ljmp address
        let (m2, hi) = fetch(m);
        let (m3, lo) = fetch(m2);
        m3.with_pc((hi as u16) << 8 | (lo as u16))
    } else if op == 0x03 {
        // rr a
        let a0 = m.read(acc_addr());
        let new = if a0 & 1 == 0 { a0 >> 1 } else { 0x80 | (a0 >> 1) };
        m.write(acc_addr(), new)
    } else if 0x04 <= op && op <= 0x0F {
        // inc operand
        let (m2, oa) = operand_spec(m, op);
        m2.write(oa, wrap8(m2.read(oa) + 1))
    } else if op == 0x10 {
        // jbs bit, offset: if the bit is set, clear it and jump
        let (m2, bit) = fetch(m);
        let (m3, off) = fetch(m2);
        let (ad, mask) = bit_of(bit);
        let v = m3.read(ad);
        if v & mask != 0 {
            reljmp_spec(m3.write(ad, v & !mask), off as i8)
        } else {
            m3
        }
    } else if op == 0x12 {
        // lcall address: push the return address low byte first
        let (m2, hi) = fetch(m);
        let (m3, lo) = fetch(m2);
        let m4 = push_spec(m3, m3.pc as u8);
        let m5 = push_spec(m4, (m3.pc >> 8) as u8);
        m5.with_pc((hi as u16) << 8 | (lo as u16))
    } else if op == 0x13 {
        // rrc a: rotate right through carry
        let a0 = m.read(acc_addr());
        let psw0 = m.read(psw_addr());
        let m2 = m.write(psw_addr(), if a0 & 1 == 0 { psw0 & 0x7F } else { psw0 | 0x80 });
        let new = if psw0 & 0x80 == 0 { a0 >> 1 } else { 0x80 | (a0 >> 1) };
        m2.write(acc_addr(), new)
    } else if 0x14 <= op && op <= 0x1F {
        // dec operand
        let (m2, oa) = operand_spec(m, op);
        m2.write(oa, wrap8(m2.read(oa) - 1))
    } else if op == 0x20 {
        // jb bit, offset
        let (m2, bit) = fetch(m);
        let (m3, off) = fetch(m2);
        let (ad, mask) = bit_of(bit);
        if m3.read(ad) & mask != 0 {
            reljmp_spec(m3, off as i8)
        } else {
            m3
        }
    } else if op == 0x22 {
        // ret: pop the high byte first
        let (m2, hi) = pop_spec(m);
        let (m3, lo) = pop_spec(m2);
        m3.with_pc((hi as u16) << 8 | (lo as u16))
    } else if op == 0x23 {
        // rl a
        let a0 = m.read(acc_addr());
        let new = if a0 & 0x80 == 0 { a0 << 1 } else { (a0 << 1) | 1 };
        m.write(acc_addr(), new)
    } else if 0x24 <= op && op <= 0x2F {
        // add a, operand
        let (m2, v) = if op & 0xF == 4 {
            fetch(m)
        } else {
            let (ma, oa) = operand_spec(m, op);
            (ma, ma.read(oa))
        };
        let a0 = m2.read(acc_addr());
        let m3 = update_psw_spec(m2, add_carry(a0, v, 0), add_aux(a0, v, 0), add_ov(a0, v, 0));
        m3.write(acc_addr(), add_result(a0, v, 0))
    } else if op == 0x30 {
        // jnb bit, offset
        let (m2, bit) = fetch(m);
        let (m3, off) = fetch(m2);
        let (ad, mask) = bit_of(bit);
        if m3.read(ad) & mask == 0 {
            reljmp_spec(m3, off as i8)
        } else {
            m3
        }
    } else if op == 0x33 {
        // rlc a: rotate left through carry
        let a0 = m.read(acc_addr());
        let psw0 = m.read(psw_addr());
        let m2 = m.write(psw_addr(), if a0 & 0x80 == 0 { psw0 & 0x7F } else { psw0 | 0x80 });
        let new = if psw0 & 0x80 == 0 { a0 << 1 } else { (a0 << 1) | 1 };
        m2.write(acc_addr(), new)
    } else if 0x34 <= op && op <= 0x3F {
        // addc a, operand
        let (m2, v) = if op & 0xF == 4 {
            fetch(m)
        } else {
            let (ma, oa) = operand_spec(m, op);
            (ma, ma.read(oa))
        };
        let cin = carry_in(m2);
        let a0 = m2.read(acc_addr());
        let m3 = update_psw_spec(
            m2,
            add_carry(a0, v, cin),
            add_aux(a0, v, cin),
            add_ov(a0, v, cin),
        );
        m3.write(acc_addr(), add_result(a0, v, cin))
    } else if op == 0x40 {
        // jc offset
        let (m2, off) = fetch(m);
        if m2.read(psw_addr()) & 0x80 != 0 {
            reljmp_spec(m2, off as i8)
        } else {
            m2
        }
    } else if op == 0x42 {
        // orl address, a
        let (m2, d) = fetch(m);
        let v = m2.read(acc_addr());
        m2.write(Addr::Reg(d), m2.read(Addr::Reg(d)) | v)
    } else if op == 0x43 {
        // orl address, #data
        let (m2, d) = fetch(m);
        let (m3, v) = fetch(m2);
        m3.write(Addr::Reg(d), m3.read(Addr::Reg(d)) | v)
    } else if 0x44 <= op && op <= 0x4F {
        // orl a, operand
        let (m2, v) = if op & 0xF == 4 {
            fetch(m)
        } else {
            let (ma, oa) = operand_spec(m, op);
            (ma, ma.read(oa))
        };
        m2.write(acc_addr(), m2.read(acc_addr()) | v)
    } else if op == 0x50 {
        // jnc offset
        let (m2, off) = fetch(m);
        if m2.read(psw_addr()) & 0x80 == 0 {
            reljmp_spec(m2, off as i8)
        } else {
            m2
        }
    } else if op == 0x52 {
        // anl address, a
        let (m2, d) = fetch(m);
        let v = m2.read(acc_addr());
        m2.write(Addr::Reg(d), m2.read(Addr::Reg(d)) & v)
    } else if op == 0x53 {
        // anl address, #data
        let (m2, d) = fetch(m);
        let (m3, v) = fetch(m2);
        m3.write(Addr::Reg(d), m3.read(Addr::Reg(d)) & v)
    } else if 0x54 <= op && op <= 0x5F {
        // anl a, operand
        let (m2, v) = if op & 0xF == 4 {
            fetch(m)
        } else {
            let (ma, oa) = operand_spec(m, op);
            (ma, ma.read(oa))
        };
        m2.write(acc_addr(), m2.read(acc_addr()) & v)
    } else if op == 0x60 {
        // jz offset
        let (m2, off) = fetch(m);
        if m2.read(acc_addr()) == 0 {
            reljmp_spec(m2, off as i8)
        } else {
            m2
        }
    } else if 0x64 <= op && op <= 0x6F {
        // xrl a, operand
        let (m2, v) = if op & 0xF == 4 {
            fetch(m)
        } else {
            let (ma, oa) = operand_spec(m, op);
            (ma, ma.read(oa))
        };
        m2.write(acc_addr(), m2.read(acc_addr()) ^ v)
    } else if op == 0x70 {
        // jnz offset
        let (m2, off) = fetch(m);
        if m2.read(acc_addr()) != 0 {
            reljmp_spec(m2, off as i8)
        } else {
            m2
        }
    } else if op == 0x73 {
        // jmp @a+dptr
        m.with_pc(wrap16(m.dptr16() + m.read(acc_addr())))
    } else if 0x74 <= op && op <= 0x7F {
        // mov operand, #data
        let (m2, oa) = operand_spec(m, op);
        let (m3, v) = fetch(m2);
        m3.write(oa, v)
    } else if op == 0x80 {
        // sjmp offset
        let (m2, off) = fetch(m);
        reljmp_spec(m2, off as i8)
    } else if op == 0x85 {
        // mov address, address: source byte first on the wire
        let (m2, src) = fetch(m);
        let (m3, dst) = fetch(m2);
        m3.write(Addr::Reg(dst), m3.read(Addr::Reg(src)))
    } else if 0x86 <= op && op <= 0x8F {
        // mov address, operand
        let (m2, d) = fetch(m);
        let (m3, oa) = operand_spec(m2, op);
        m3.write(Addr::Reg(d), m3.read(oa))
    } else if op == 0x90 {
        // mov dptr, #data16: high byte first on the wire
        let (m2, hi) = fetch(m);
        let (m3, lo) = fetch(m2);
        let value = (hi as u16) << 8 | (lo as u16);
        let m4 = m3.write(m3.dptr_addr(false), value as u8);
        m4.write(m4.dptr_addr(true), (value >> 8) as u8)
    } else if op == 0x92 {
        // mov bit, c
        let (m2, bit) = fetch(m);
        let (ad, mask) = bit_of(bit);
        let old_v = m2.read(ad);
        let new = if m2.read(psw_addr()) & 0x80 == 0 { old_v & !mask } else { old_v | mask };
        m2.write(ad, new)
    } else if op == 0x93 {
        // movc a, @a+dptr
        let address = wrap16(m.dptr16() + m.read(acc_addr()));
        m.write(acc_addr(), m.read(Addr::PMem(address)))
    } else if 0x94 <= op && op <= 0x9F {
        // subb a, operand
        let (m2, v) = if op & 0xF == 4 {
            fetch(m)
        } else {
            let (ma, oa) = operand_spec(m, op);
            (ma, ma.read(oa))
        };
        let cin = carry_in(m2);
        let a0 = m2.read(acc_addr());
        let m3 = update_psw_spec(
            m2,
            subb_carry(a0, v, cin),
            subb_aux(a0, v, cin),
            subb_ov(a0, v, cin),
        );
        m3.write(acc_addr(), subb_result(a0, v, cin))
    } else if op == 0xA3 {
        // inc dptr
        let value = wrap16(m.dptr16() + 1);
        let m2 = m.write(m.dptr_addr(false), value as u8);
        m2.write(m2.dptr_addr(true), (value >> 8) as u8)
    } else if op == 0xA4 {
        // mul ab
        let a0 = m.read(acc_addr());
        let b0 = m.read(breg_addr());
        let prod = a0 * b0;
        let m2 = update_psw_spec(m, false, false, prod > 255);
        let m3 = m2.write(acc_addr(), (prod % 0x100) as u8);
        m3.write(breg_addr(), (prod / 0x100) as u8)
    } else if 0xA6 <= op && op <= 0xAF {
        // mov operand, address
        let (m2, oa) = operand_spec(m, op);
        let (m3, d) = fetch(m2);
        m3.write(oa, m3.read(Addr::Reg(d)))
    } else if 0xB4 <= op && op <= 0xBF {
        // cjne operand, operand, offset
        let t = if op & 0xF == 4 {
            let (m2, v) = fetch(m);
            (m2, m2.read(acc_addr()), v)
        } else if op & 0xF == 5 {
            let (m2, d) = fetch(m);
            (m2, m2.read(acc_addr()), m2.read(Addr::Reg(d)))
        } else {
            let (ma, oa) = operand_spec(m, op);
            let (m2, v) = fetch(ma);
            (m2, m2.read(oa), v)
        };
        let (m3, off) = fetch(t.0);
        let psw0 = m3.read(psw_addr());
        let m4 = m3.write(psw_addr(), if t.1 < t.2 { psw0 | 0x80 } else { psw0 & 0x7F });
        if t.1 != t.2 {
            reljmp_spec(m4, off as i8)
        } else {
            m4
        }
    } else if op == 0xC0 {
        // push address
        let (m2, d) = fetch(m);
        push_spec(m2, m2.read(Addr::Reg(d)))
    } else if op == 0xC2 {
        // clr bit
        let (m2, bit) = fetch(m);
        let (ad, mask) = bit_of(bit);
        m2.write(ad, m2.read(ad) & !mask)
    } else if op == 0xC3 {
        // clr c
        m.write(psw_addr(), m.read(psw_addr()) & 0x7F)
    } else if op == 0xC4 {
        // swap a
        let a0 = m.read(acc_addr());
        m.write(acc_addr(), (a0 >> 4) | (a0 & 0xF) << 4)
    } else if 0xC5 <= op && op <= 0xCF {
        // xch a, operand
        let (m2, oa) = operand_spec(m, op);
        let a0 = m2.read(acc_addr());
        let v = m2.read(oa);
        let m3 = m2.write(acc_addr(), v);
        m3.write(oa, a0)
    } else if op == 0xD0 {
        // pop address
        let (m2, d) = fetch(m);
        let (m3, v) = pop_spec(m2);
        m3.write(Addr::Reg(d), v)
    } else if op == 0xD2 {
        // setb bit
        let (m2, bit) = fetch(m);
        let (ad, mask) = bit_of(bit);
        m2.write(ad, m2.read(ad) | mask)
    } else if op == 0xD3 {
        // setb c
        m.write(psw_addr(), m.read(psw_addr()) | 0x80)
    } else if op == 0xD5 || (0xD8 <= op && op <= 0xDF) {
        // djnz operand, offset: jump if the decremented value is nonzero
        let (m2, oa) = operand_spec(m, op);
        let (m3, off) = fetch(m2);
        let v = wrap8(m3.read(oa) - 1);
        let m4 = m3.write(oa, v);
        if v != 0 {
            reljmp_spec(m4, off as i8)
        } else {
            m4
        }
    } else if op == 0xE0 {
        // movx a, @dptr
        m.write(acc_addr(), m.read(Addr::XRam(m.dptr16())))
    } else if op == 0xE2 || op == 0xE3 {
        // movx a, @ri: p2 supplies the high address byte
        let ra = m.rn_addr((op - 0xE2) as u8);
        let address = (m.read(ra) as u16) | ((m.read(port_addr(2)) as u16) << 8);
        m.write(acc_addr(), m.read(Addr::XRam(address)))
    } else if op == 0xE4 {
        // clr a
        m.write(acc_addr(), 0)
    } else if 0xE5 <= op && op <= 0xEF {
        // mov a, operand
        let (m2, oa) = operand_spec(m, op);
        m2.write(acc_addr(), m2.read(oa))
    } else if op == 0xF0 {
        // movx @dptr, a
        m.write(Addr::XRam(m.dptr16()), m.read(acc_addr()))
    } else if op == 0xF2 || op == 0xF3 {
        // movx @ri, a
        let ra = m.rn_addr((op - 0xF2) as u8);
        let address = (m.read(ra) as u16) | ((m.read(port_addr(2)) as u16) << 8);
        m.write(Addr::XRam(address), m.read(acc_addr()))
    } else if op == 0xF4 {
        // cpl a
        m.write(acc_addr(), !m.read(acc_addr()))
    } else if 0xF5 <= op && op <= 0xFF {
        // mov operand, a
        let (m2, oa) = operand_spec(m, op);
        m2.write(oa, m2.read(acc_addr()))
    } else {
        // not in the dispatch table; `step` excludes this by precondition
        m
    }
}

/// One full instruction: fetch the opcode at the program counter and
/// execute it.
pub open spec fn step_spec(m: Mach) -> Mach {
    let (m1, op) = fetch(m);
    dispatch(m1, op)
}

/// How many code bytes the operand slot of an opcode consumes: one for the
/// direct slot, none otherwise.
pub open spec fn operand_len(op: u8) -> int {
    if op & 0xF == 5 { 1 } else { 0 }
}

/// The encoded length of an instruction in code bytes: the opcode itself,
/// any operand byte the slot consumes, and any immediate, address or
/// offset bytes.
pub open spec fn instr_len(op: u8) -> int {
    if op == 0x00 { 1 }
    else if op == 0x02 { 3 }
    else if op == 0x03 { 1 }
    else if 0x04 <= op && op <= 0x0F { 1 + operand_len(op) }
    else if op == 0x10 { 3 }
    else if op == 0x12 { 3 }
    else if op == 0x13 { 1 }
    else if 0x14 <= op && op <= 0x1F { 1 + operand_len(op) }
    else if op == 0x20 { 3 }
    else if op == 0x22 { 1 }
    else if op == 0x23 { 1 }
    else if 0x24 <= op && op <= 0x2F { 1 + (if op & 0xF == 4 { 1int } else { operand_len(op) }) }
    else if op == 0x30 { 3 }
    else if op == 0x33 { 1 }
    else if 0x34 <= op && op <= 0x3F { 1 + (if op & 0xF == 4 { 1int } else { operand_len(op) }) }
    else if op == 0x40 { 2 }
    else if op == 0x42 { 2 }
    else if op == 0x43 { 3 }
    else if 0x44 <= op && op <= 0x4F { 1 + (if op & 0xF == 4 { 1int } else { operand_len(op) }) }
    else if op == 0x50 { 2 }
    else if op == 0x52 { 2 }
    else if op == 0x53 { 3 }
    else if 0x54 <= op && op <= 0x5F { 1 + (if op & 0xF == 4 { 1int } else { operand_len(op) }) }
    else if op == 0x60 { 2 }
    else if 0x64 <= op && op <= 0x6F { 1 + (if op & 0xF == 4 { 1int } else { operand_len(op) }) }
    else if op == 0x70 { 2 }
    else if op == 0x73 { 1 }
    else if 0x74 <= op && op <= 0x7F { 2 + operand_len(op) }
    else if op == 0x80 { 2 }
    else if op == 0x85 { 3 }
    else if 0x86 <= op && op <= 0x8F { 2 + operand_len(op) }
    else if op == 0x90 { 3 }
    else if op == 0x92 { 2 }
    else if op == 0x93 { 1 }
    else if 0x94 <= op && op <= 0x9F { 1 + (if op & 0xF == 4 { 1int } else { operand_len(op) }) }
    else if op == 0xA3 { 1 }
    else if op == 0xA4 { 1 }
    else if 0xA6 <= op && op <= 0xAF { 2 + operand_len(op) }
    else if 0xB4 <= op && op <= 0xBF { 3 }
    else if op == 0xC0 { 2 }
    else if op == 0xC2 { 2 }
    else if op == 0xC3 { 1 }
    else if op == 0xC4 { 1 }
    else if 0xC5 <= op && op <= 0xCF { 1 + operand_len(op) }
    else if op == 0xD0 { 2 }
    else if op == 0xD2 { 2 }
    else if op == 0xD3 { 1 }
    else if op == 0xD5 || (0xD8 <= op && op <= 0xDF) { 2 + operand_len(op) }
    else if op == 0xE0 { 1 }
    else if op == 0xE2 || op == 0xE3 { 1 }
    else if op == 0xE4 { 1 }
    else if 0xE5 <= op && op <= 0xEF { 1 + operand_len(op) }
    else if op == 0xF0 { 1 }
    else if op == 0xF2 || op == 0xF3 { 1 }
    else if op == 0xF4 { 1 }
    else { 1 + operand_len(op) }
}

/// The opcodes that may leave the program counter somewhere other than
/// just past the instruction: unconditional and conditional jumps, calls
/// and returns.
pub open spec fn transfers_pc(op: u8) -> bool {
    ||| op == 0x02
    ||| op == 0x10
    ||| op == 0x12
    ||| op == 0x20
    ||| op == 0x22
    ||| op == 0x30
    ||| op == 0x40
    ||| op == 0x50
    ||| op == 0x60
    ||| op == 0x70
    ||| op == 0x73
    ||| op == 0x80
    ||| (0xB4 <= op && op <= 0xBF)
    ||| op == 0xD5
    ||| (0xD8 <= op && op <= 0xDF)
}

/// Executable form of `op_defined`, for a driver that must refuse an
/// undefined opcode before calling `step`.
pub fn is_op_defined(op: u8) -> (r: bool)
    ensures
        r == op_defined(op),
{
    match op {
        0x00 | 0x02 | 0x03 | 0x04..=0x0F | 0x10 | 0x12 | 0x13 | 0x14..=0x1F | 0x20 | 0x22
        | 0x23 | 0x24..=0x2F | 0x30 | 0x33 | 0x34..=0x3F | 0x40 | 0x42 | 0x43 | 0x44..=0x4F
        | 0x50 | 0x52 | 0x53 | 0x54..=0x5F | 0x60 | 0x64..=0x6F | 0x70 | 0x73 | 0x74..=0x7F
        | 0x80 | 0x85 | 0x86..=0x8F | 0x90 | 0x92 | 0x93 | 0x94..=0x9F | 0xA3 | 0xA4
        | 0xA6..=0xAF | 0xB4..=0xBF | 0xC0 | 0xC2 | 0xC3 | 0xC4 | 0xC5..=0xCF | 0xD0 | 0xD2
        | 0xD3 | 0xD5 | 0xD8..=0xDF | 0xE0 | 0xE2 | 0xE3 | 0xE4 | 0xE5..=0xEF | 0xF0 | 0xF2
        | 0xF3 | 0xF4 | 0xF5..=0xFF => true,
        _ => false,
    }
}

} // verus!
