use vstd::prelude::*;
use crate::addr::Addr;
use crate::mem::Mem;
use crate::reg::Reg;
use crate::semantics::{
    fetch, lemma_low_nibble, op_defined, operand_spec, pop_spec, push_spec, reljmp_spec,
    reset_spec, step_spec, update_psw_spec,
};

verus! {

/// The instruction-set layer: the program counter, fetch, the stack and
/// flag primitives, the operand decoder, and one instruction per `step`.
pub trait Isa: Mem + Reg {
    fn pc(&self) -> (r: u16)
        ensures
            r == self.mach().pc,
    ;

    fn set_pc(&mut self, value: u16)
        ensures
            final(self).mach() == old(self).mach().with_pc(value),
    ;

    /// Move the program counter by a signed offset, wrapping modulo 2^16.
    fn reljmp(&mut self, offset: i8)
        ensures
            final(self).mach() == reljmp_spec(old(self).mach(), offset),
    {
        let pc = self.pc().wrapping_add_signed(offset as i16);
        self.set_pc(pc);
    }

    /// Fetch one code byte at the program counter and advance it.
    fn load_pc(&mut self) -> (r: u8)
        requires
            old(self).mach().wf(),
        ensures
            final(self).mach() == fetch(old(self).mach()).0,
            r == fetch(old(self).mach()).1,
            final(self).mach().wf(),
    {
        let pc = self.pc();
        let value = self.load(Addr::PMem(pc));
        self.reljmp(1);
        value
    }

    /// Pop from the stack: read at SP, then decrement SP, wrapping.
    fn pop_sp(&mut self) -> (r: u8)
        requires
            old(self).mach().wf(),
        ensures
            final(self).mach() == pop_spec(old(self).mach()).0,
            r == pop_spec(old(self).mach()).1,
            final(self).mach().wf(),
    {
        let spa = self.sp();
        let sp = self.load(spa);
        let value = self.load(Addr::IRam(sp));
        self.store(spa, sp.wrapping_sub(1));
        value
    }

    /// Push onto the stack: increment SP, wrapping, then store at the new SP.
    fn push_sp(&mut self, value: u8)
        requires
            old(self).mach().wf(),
        ensures
            final(self).mach() == push_spec(old(self).mach(), value),
            final(self).mach().wf(),
    {
        let spa = self.sp();
        let sp = self.load(spa).wrapping_add(1);
        self.store(spa, sp);
        self.store(Addr::IRam(sp), value);
    }

    /// Write the carry, auxiliary-carry and overflow flags into PSW bits 7,
    /// 6 and 2, leaving every other bit untouched.
    fn update_psw(&mut self, carry: bool, aux_carry: bool, overflow: bool)
        requires
            old(self).mach().wf(),
        ensures
            final(self).mach() == update_psw_spec(old(self).mach(), carry, aux_carry, overflow),
            final(self).mach().wf(),
    {
        let pswa = self.psw();
        let mut psw = self.load(pswa);

        if carry {
            psw = psw | 0x80;
        } else {
            psw = psw & 0x7F;
        }

        if aux_carry {
            psw = psw | 0x40;
        } else {
            psw = psw & 0xBF;
        }

        if overflow {
            psw = psw | 0x04;
        } else {
            psw = psw & 0xFB;
        }

        self.store(pswa, psw);
    }

    /// Clear the program counter, the low half of internal RAM and all
    /// SFRs, then set the stack pointer to 7.
    fn reset(&mut self)
        requires
            old(self).mach().wf(),
        ensures
            final(self).mach() == reset_spec(old(self).mach()),
            final(self).mach().wf(),
    {
        self.set_pc(0);

        let mut i: u16 = 0;
        while i < 0x100
            invariant
                i <= 0x100,
                self.mach().wf(),
                self.mach().pc == 0,
                self.mach().pmem == old(self).mach().pmem,
                self.mach().xram == old(self).mach().xram,
                forall|j: int| 0 <= j < 256 ==> self.mach().iram[j] == (
                    if j < i && j < 0x80 { 0u8 } else { old(self).mach().iram[j] }
                ),
                forall|j: int| 0 <= j < 128 ==> self.mach().sfr[j] == (
                    if j + 0x80 < i { 0u8 } else { old(self).mach().sfr[j] }
                ),
            decreases 0x100 - i,
        {
            self.store(Addr::Reg(i as u8), 0);
            i = i + 1;
        }

        let spa = self.sp();
        self.store(spa, 7);

        proof {
            assert(self.mach().iram =~= reset_spec(old(self).mach()).iram);
            assert(self.mach().sfr =~= reset_spec(old(self).mach()).sfr);
            assert(self.mach() =~= reset_spec(old(self).mach()));
        }
    }

    /// Resolve the operand slot named by the low nibble of `op`; the direct
    /// slot consumes one code byte. Nibbles below 4 name no slot and are
    /// excluded: the dispatch table never produces them.
    fn operand(&mut self, op: u8) -> (a: Addr)
        requires
            old(self).mach().wf(),
            op & 0xF >= 4,
        ensures
            final(self).mach() == operand_spec(old(self).mach(), op).0,
            a == operand_spec(old(self).mach(), op).1,
            final(self).mach().wf(),
    {
        let operand: u8 = op & 0xF;
        proof {
            assert(op & 0xF <= 0xF) by (bit_vector);
        }
        match operand {
            0x4 => self.a(),
            0x5 => {
                let value = self.load_pc();
                Addr::Reg(value)
            },
            0x6..=0x7 => {
                let ra = self.r(operand - 0x6);
                let v = self.load(ra);
                Addr::IRam(v)
            },
            0x8..=0xF => self.r(operand - 0x8),
            _ => {
                proof {
                    assert(false);
                }
                Addr::Reg(0)
            },
        }
    }

    /// Execute one instruction: fetch the opcode at the program counter and
    /// carry out its reads, fetches and writes. The opcode must be in the
    /// dispatch table; executing any other byte is a fatal decode error.
    #[verifier::rlimit(100)]
    fn step(&mut self)
        requires
            old(self).mach().wf(),
            op_defined(old(self).mach().read(Addr::PMem(old(self).mach().pc))),
        ensures
            final(self).mach() == step_spec(old(self).mach()),
            final(self).mach().wf(),
    {
        let op = self.load_pc();
        match op {
            // nop
            0x00 => {},

            // ljmp address
            0x02 => {
                let hi = self.load_pc();
                let lo = self.load_pc();
                let address: u16 = (hi as u16) << 8 | (lo as u16);
                self.set_pc(address);
            },

            // rr a
            0x03 => {
                let aa = self.a();
                let old_a = self.load(aa);
                let new: u8 = if old_a & 1 == 0 { old_a >> 1 } else { 0x80 | (old_a >> 1) };
                self.store(aa, new);
            },

            // inc operand
            0x04..=0x0F => {
                proof {
                    lemma_low_nibble(op);
                }
                let oa = self.operand(op);
                let old_v = self.load(oa);
                self.store(oa, old_v.wrapping_add(1));
            },

            // jbs bit, offset: if the bit is set, clear it and jump
            0x10 => {
                let bit = self.load_pc();
                let offset = self.load_pc();
                let bm = self.bit(bit);
                let value = self.load(bm.0);
                if value & bm.1 != 0 {
                    self.store(bm.0, value & !bm.1);
                    self.reljmp(offset as i8);
                }
            },

            // lcall address: push the return address low byte first
            0x12 => {
                let hi = self.load_pc();
                let lo = self.load_pc();
                let address: u16 = (hi as u16) << 8 | (lo as u16);
                let pc = self.pc();
                self.push_sp(pc as u8);
                self.push_sp((pc >> 8) as u8);
                self.set_pc(address);
            },

            // rrc a: rotate right through carry
            0x13 => {
                let aa = self.a();
                let old_a = self.load(aa);
                let pswa = self.psw();
                let psw = self.load(pswa);
                if old_a & 1 == 0 {
                    self.store(pswa, psw & 0x7F);
                } else {
                    self.store(pswa, psw | 0x80);
                }
                let new: u8 = if psw & 0x80 == 0 { old_a >> 1 } else { 0x80 | (old_a >> 1) };
                let aa2 = self.a();
                self.store(aa2, new);
            },

            // dec operand
            0x14..=0x1F => {
                proof {
                    lemma_low_nibble(op);
                }
                let oa = self.operand(op);
                let old_v = self.load(oa);
                self.store(oa, old_v.wrapping_sub(1));
            },

            // jb bit, offset
            0x20 => {
                let bit = self.load_pc();
                let offset = self.load_pc();
                let bm = self.bit(bit);
                let value = self.load(bm.0);
                if value & bm.1 != 0 {
                    self.reljmp(offset as i8);
                }
            },

            // ret: pop the high byte first
            0x22 => {
                let hi = self.pop_sp();
                let lo = self.pop_sp();
                let pc: u16 = (hi as u16) << 8 | (lo as u16);
                self.set_pc(pc);
            },

            // rl a
            0x23 => {
                let aa = self.a();
                let old_a = self.load(aa);
                let new: u8 = if old_a & 0x80 == 0 { old_a << 1 } else { (old_a << 1) | 1 };
                self.store(aa, new);
            },

            // add a, operand
            0x24..=0x2F => {
                proof {
                    lemma_low_nibble(op);
                }
                let value: u8 = if (op & 0xF) == 4 {
                    self.load_pc()
                } else {
                    let oa = self.operand(op);
                    self.load(oa)
                };
                let aa = self.a();
                let old_a = self.load(aa);

                let sum: u16 = old_a as u16 + value as u16;
                let carry: bool = sum > 0xFF;
                let nib: u16 = (old_a & 0xF) as u16 + (value & 0xF) as u16;
                let aux_carry: bool = nib > 0xF;
                let sa: i16 = if old_a < 0x80 { old_a as i16 } else { old_a as i16 - 0x100 };
                let sv: i16 = if value < 0x80 { value as i16 } else { value as i16 - 0x100 };
                let signed: i16 = sa + sv;
                let overflow: bool = signed > 127 || signed < -128;
                self.update_psw(carry, aux_carry, overflow);

                let new: u8 = if sum > 0xFF { (sum - 0x100) as u8 } else { sum as u8 };
                let aa2 = self.a();
                self.store(aa2, new);
            },

            // jnb bit, offset
            0x30 => {
                let bit = self.load_pc();
                let offset = self.load_pc();
                let bm = self.bit(bit);
                let value = self.load(bm.0);
                if value & bm.1 == 0 {
                    self.reljmp(offset as i8);
                }
            },

            // rlc a: rotate left through carry
            0x33 => {
                let aa = self.a();
                let old_a = self.load(aa);
                let pswa = self.psw();
                let psw = self.load(pswa);
                if old_a & 0x80 == 0 {
                    self.store(pswa, psw & 0x7F);
                } else {
                    self.store(pswa, psw | 0x80);
                }
                let new: u8 = if psw & 0x80 == 0 { old_a << 1 } else { (old_a << 1) | 1 };
                let aa2 = self.a();
                self.store(aa2, new);
            },

            // addc a, operand
            0x34..=0x3F => {
                proof {
                    lemma_low_nibble(op);
                }
                let value: u8 = if (op & 0xF) == 4 {
                    self.load_pc()
                } else {
                    let oa = self.operand(op);
                    self.load(oa)
                };
                let pswa = self.psw();
                let pswv = self.load(pswa);
                let cin: u8 = if pswv & 0x80 != 0 { 1 } else { 0 };
                let aa = self.a();
                let old_a = self.load(aa);

                let sum: u16 = old_a as u16 + value as u16 + cin as u16;
                let carry: bool = sum > 0xFF;
                let nib: u16 = (old_a & 0xF) as u16 + (value & 0xF) as u16 + cin as u16;
                let aux_carry: bool = nib > 0xF;
                let sa: i16 = if old_a < 0x80 { old_a as i16 } else { old_a as i16 - 0x100 };
                let sv: i16 = if value < 0x80 { value as i16 } else { value as i16 - 0x100 };
                let signed: i16 = sa + sv + cin as i16;
                let overflow: bool = signed > 127 || signed < -128;
                self.update_psw(carry, aux_carry, overflow);

                let new: u8 = if sum > 0xFF { (sum - 0x100) as u8 } else { sum as u8 };
                let aa2 = self.a();
                self.store(aa2, new);
            },

            // jc offset
            0x40 => {
                let offset = self.load_pc();
                let pswa = self.psw();
                if self.load(pswa) & 0x80 != 0 {
                    self.reljmp(offset as i8);
                }
            },

            // orl address, a
            0x42 => {
                let address = self.load_pc();
                let aa = self.a();
                let value = self.load(aa);
                let old_v = self.load(Addr::Reg(address));
                self.store(Addr::Reg(address), old_v | value);
            },

            // orl address, #data
            0x43 => {
                let address = self.load_pc();
                let value = self.load_pc();
                let old_v = self.load(Addr::Reg(address));
                self.store(Addr::Reg(address), old_v | value);
            },

            // orl a, operand
            0x44..=0x4F => {
                proof {
                    lemma_low_nibble(op);
                }
                let value: u8 = if (op & 0xF) == 4 {
                    self.load_pc()
                } else {
                    let oa = self.operand(op);
                    self.load(oa)
                };
                let aa = self.a();
                let old_a = self.load(aa);
                self.store(aa, old_a | value);
            },

            // jnc offset
            0x50 => {
                let offset = self.load_pc();
                let pswa = self.psw();
                if self.load(pswa) & 0x80 == 0 {
                    self.reljmp(offset as i8);
                }
            },

            // anl address, a
            0x52 => {
                let address = self.load_pc();
                let aa = self.a();
                let value = self.load(aa);
                let old_v = self.load(Addr::Reg(address));
                self.store(Addr::Reg(address), old_v & value);
            },

            // anl address, #data
            0x53 => {
                let address = self.load_pc();
                let value = self.load_pc();
                let old_v = self.load(Addr::Reg(address));
                self.store(Addr::Reg(address), old_v & value);
            },

            // anl a, operand
            0x54..=0x5F => {
                proof {
                    lemma_low_nibble(op);
                }
                let value: u8 = if (op & 0xF) == 4 {
                    self.load_pc()
                } else {
                    let oa = self.operand(op);
                    self.load(oa)
                };
                let aa = self.a();
                let old_a = self.load(aa);
                self.store(aa, old_a & value);
            },

            // jz offset
            0x60 => {
                let offset = self.load_pc();
                let aa = self.a();
                if self.load(aa) == 0 {
                    self.reljmp(offset as i8);
                }
            },

            // xrl a, operand
            0x64..=0x6F => {
                proof {
                    lemma_low_nibble(op);
                }
                let value: u8 = if (op & 0xF) == 4 {
                    self.load_pc()
                } else {
                    let oa = self.operand(op);
                    self.load(oa)
                };
                let aa = self.a();
                let old_a = self.load(aa);
                self.store(aa, old_a ^ value);
            },

            // jnz offset
            0x70 => {
                let offset = self.load_pc();
                let aa = self.a();
                if self.load(aa) != 0 {
                    self.reljmp(offset as i8);
                }
            },

            // jmp @a+dptr
            0x73 => {
                let d0 = self.dptr(false);
                let lo = self.load(d0);
                let d1 = self.dptr(true);
                let hi = self.load(d1);
                let base: u16 = (lo as u16) | ((hi as u16) << 8);
                let aa = self.a();
                let av = self.load(aa);
                let address = base.wrapping_add(av as u16);
                self.set_pc(address);
            },

            // mov operand, #data
            0x74..=0x7F => {
                proof {
                    lemma_low_nibble(op);
                }
                let oa = self.operand(op);
                let value = self.load_pc();
                self.store(oa, value);
            },

            // sjmp offset
            0x80 => {
                let offset = self.load_pc();
                self.reljmp(offset as i8);
            },

            // mov address, address: source byte first on the wire
            0x85 => {
                let src = self.load_pc();
                let dest = self.load_pc();
                let value = self.load(Addr::Reg(src));
                self.store(Addr::Reg(dest), value);
            },

            // mov address, operand
            0x86..=0x8F => {
                proof {
                    lemma_low_nibble(op);
                }
                let address = self.load_pc();
                let oa = self.operand(op);
                let value = self.load(oa);
                self.store(Addr::Reg(address), value);
            },

            // mov dptr, #data16: high byte first on the wire
            0x90 => {
                let hi = self.load_pc();
                let lo = self.load_pc();
                let value: u16 = (hi as u16) << 8 | (lo as u16);
                let d0 = self.dptr(false);
                self.store(d0, value as u8);
                let d1 = self.dptr(true);
                self.store(d1, (value >> 8) as u8);
            },

            // mov bit, c
            0x92 => {
                let bit = self.load_pc();
                let bm = self.bit(bit);
                let old_v = self.load(bm.0);
                let pswa = self.psw();
                let new: u8 = if self.load(pswa) & 0x80 == 0 { old_v & !bm.1 } else { old_v | bm.1 };
                self.store(bm.0, new);
            },

            // movc a, @a+dptr
            0x93 => {
                let d0 = self.dptr(false);
                let lo = self.load(d0);
                let d1 = self.dptr(true);
                let hi = self.load(d1);
                let base: u16 = (lo as u16) | ((hi as u16) << 8);
                let aa = self.a();
                let av = self.load(aa);
                let address = base.wrapping_add(av as u16);
                let value = self.load(Addr::PMem(address));
                let aa2 = self.a();
                self.store(aa2, value);
            },

            // subb a, operand
            0x94..=0x9F => {
                proof {
                    lemma_low_nibble(op);
                }
                let value: u8 = if (op & 0xF) == 4 {
                    self.load_pc()
                } else {
                    let oa = self.operand(op);
                    self.load(oa)
                };
                let pswa = self.psw();
                let pswv = self.load(pswa);
                let cin: u8 = if pswv & 0x80 != 0 { 1 } else { 0 };
                let aa = self.a();
                let old_a = self.load(aa);

                let w: u16 = value as u16 + cin as u16;
                let carry: bool = w > old_a as u16;
                let nibw: u16 = (value & 0xF) as u16 + cin as u16;
                let aux_carry: bool = nibw > (old_a & 0xF) as u16;
                let sa: i16 = if old_a < 0x80 { old_a as i16 } else { old_a as i16 - 0x100 };
                let sv: i16 = if value < 0x80 { value as i16 } else { value as i16 - 0x100 };
                let signed: i16 = sa - sv - cin as i16;
                let overflow: bool = signed > 127 || signed < -128;
                self.update_psw(carry, aux_carry, overflow);

                let d: i16 = old_a as i16 - w as i16;
                let new: u8 = if d < 0 { (d + 0x100) as u8 } else { d as u8 };
                let aa2 = self.a();
                self.store(aa2, new);
            },

            // inc dptr
            0xA3 => {
                let d0 = self.dptr(false);
                let lo = self.load(d0);
                let d1 = self.dptr(true);
                let hi = self.load(d1);
                let base: u16 = (lo as u16) | ((hi as u16) << 8);
                let value = base.wrapping_add(1);
                let d0b = self.dptr(false);
                self.store(d0b, value as u8);
                let d1b = self.dptr(true);
                self.store(d1b, (value >> 8) as u8);
            },

            // mul ab
            0xA4 => {
                let aa = self.a();
                let av = self.load(aa);
                let ba = self.b();
                let bv = self.load(ba);

                proof {
                    assert(av as u16 * bv as u16 <= 0xFE01) by (nonlinear_arith)
                        requires
                            av <= 0xFF,
                            bv <= 0xFF,
                    ;
                }
                let prod: u16 = av as u16 * bv as u16;
                self.update_psw(false, false, prod > 255);

                let aa2 = self.a();
                self.store(aa2, (prod % 0x100) as u8);
                let ba2 = self.b();
                self.store(ba2, (prod / 0x100) as u8);
            },

            // mov operand, address
            0xA6..=0xAF => {
                proof {
                    lemma_low_nibble(op);
                }
                let oa = self.operand(op);
                let address = self.load_pc();
                let value = self.load(Addr::Reg(address));
                self.store(oa, value);
            },

            // cjne operand, operand, offset
            0xB4..=0xBF => {
                proof {
                    lemma_low_nibble(op);
                }
                let (av, bv): (u8, u8) = if (op & 0xF) == 4 {
                    let value = self.load_pc();
                    let aa = self.a();
                    (self.load(aa), value)
                } else if (op & 0xF) == 5 {
                    let address = self.load_pc();
                    let aa = self.a();
                    let x = self.load(aa);
                    (x, self.load(Addr::Reg(address)))
                } else {
                    let oa = self.operand(op);
                    let value = self.load_pc();
                    (self.load(oa), value)
                };

                let offset = self.load_pc();
                let pswa = self.psw();
                let mut psw = self.load(pswa);
                if av < bv {
                    psw = psw | 0x80;
                } else {
                    psw = psw & 0x7F;
                }
                self.store(pswa, psw);
                if av != bv {
                    self.reljmp(offset as i8);
                }
            },

            // push address
            0xC0 => {
                let address = self.load_pc();
                let value = self.load(Addr::Reg(address));
                self.push_sp(value);
            },

            // clr bit
            0xC2 => {
                let bit = self.load_pc();
                let bm = self.bit(bit);
                let old_v = self.load(bm.0);
                self.store(bm.0, old_v & !bm.1);
            },

            // clr c
            0xC3 => {
                let pswa = self.psw();
                let psw = self.load(pswa);
                self.store(pswa, psw & 0x7F);
            },

            // swap a
            0xC4 => {
                let aa = self.a();
                let old_a = self.load(aa);
                self.store(aa, (old_a >> 4) | (old_a & 0xF) << 4);
            },

            // xch a, operand
            0xC5..=0xCF => {
                proof {
                    lemma_low_nibble(op);
                }
                let oa = self.operand(op);
                let aa = self.a();
                let old_a = self.load(aa);
                let value = self.load(oa);
                self.store(aa, value);
                self.store(oa, old_a);
            },

            // pop address
            0xD0 => {
                let address = self.load_pc();
                let value = self.pop_sp();
                self.store(Addr::Reg(address), value);
            },

            // setb bit
            0xD2 => {
                let bit = self.load_pc();
                let bm = self.bit(bit);
                let old_v = self.load(bm.0);
                self.store(bm.0, old_v | bm.1);
            },

            // setb c
            0xD3 => {
                let pswa = self.psw();
                let psw = self.load(pswa);
                self.store(pswa, psw | 0x80);
            },

            // djnz operand, offset: jump if the decremented value is nonzero
            0xD5 | 0xD8..=0xDF => {
                proof {
                    lemma_low_nibble(op);
                }
                let oa = self.operand(op);
                let offset = self.load_pc();
                let old_v = self.load(oa);
                let value = old_v.wrapping_sub(1);
                self.store(oa, value);
                if value != 0 {
                    self.reljmp(offset as i8);
                }
            },

            // movx a, @dptr
            0xE0 => {
                let d0 = self.dptr(false);
                let lo = self.load(d0);
                let d1 = self.dptr(true);
                let hi = self.load(d1);
                let address: u16 = (lo as u16) | ((hi as u16) << 8);
                let value = self.load(Addr::XRam(address));
                let aa = self.a();
                self.store(aa, value);
            },

            // movx a, @ri: p2 supplies the high address byte
            0xE2..=0xE3 => {
                let ra = self.r(op - 0xE2);
                let rv = self.load(ra);
                let pa = self.p(2);
                let p2 = self.load(pa);
                let address: u16 = (rv as u16) | ((p2 as u16) << 8);
                let value = self.load(Addr::XRam(address));
                let aa = self.a();
                self.store(aa, value);
            },

            // clr a
            0xE4 => {
                let aa = self.a();
                self.store(aa, 0);
            },

            // mov a, operand
            0xE5..=0xEF => {
                proof {
                    lemma_low_nibble(op);
                }
                let oa = self.operand(op);
                let value = self.load(oa);
                let aa = self.a();
                self.store(aa, value);
            },

            // movx @dptr, a
            0xF0 => {
                let d0 = self.dptr(false);
                let lo = self.load(d0);
                let d1 = self.dptr(true);
                let hi = self.load(d1);
                let address: u16 = (lo as u16) | ((hi as u16) << 8);
                let aa = self.a();
                let value = self.load(aa);
                self.store(Addr::XRam(address), value);
            },

            // movx @ri, a
            0xF2..=0xF3 => {
                let ra = self.r(op - 0xF2);
                let rv = self.load(ra);
                let pa = self.p(2);
                let p2 = self.load(pa);
                let address: u16 = (rv as u16) | ((p2 as u16) << 8);
                let aa = self.a();
                let value = self.load(aa);
                self.store(Addr::XRam(address), value);
            },

            // cpl a
            0xF4 => {
                let aa = self.a();
                let old_a = self.load(aa);
                self.store(aa, !old_a);
            },

            // mov operand, a
            0xF5..=0xFF => {
                proof {
                    lemma_low_nibble(op);
                }
                let oa = self.operand(op);
                let aa = self.a();
                let value = self.load(aa);
                self.store(oa, value);
            },

            // not in the dispatch table: excluded by the precondition
            _ => {
                proof {
                    assert(false);
                }
            },
        }
    }
}

} // verus!
