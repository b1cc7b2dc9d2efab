use vstd::prelude::*;
use crate::addr::Addr;
use crate::model::{acc_addr, bit_of, psw_addr, sp_addr, wrap16, wrap8, Mach};
use crate::semantics::{
    instr_len, op_defined, pop_spec, push_spec, reset_spec, step_spec, transfers_pc,
    update_psw_spec,
};

verus! {

/// The low 128 bytes of the direct space and of internal RAM are the same
/// physical bytes: a load through either tag reads the same value.
pub proof fn lemma_reg_iram_alias(m: Mach, i: u8)
    requires
        m.wf(),
        i < 0x80,
    ensures
        m.read(Addr::Reg(i)) == m.read(Addr::IRam(i)),
{
}

/// The stack pointer is a byte: it always lies in 0..=0xFF, and `push_spec`
/// and `pop_spec` move it by one, wrapping modulo 256.
pub proof fn lemma_sp_in_range(m: Mach, v: u8)
    requires
        m.wf(),
    ensures
        m.read(sp_addr()) <= 0xFF,
        push_spec(m, v).read(sp_addr()) == wrap8(m.read(sp_addr()) + 1),
        pop_spec(m).0.read(sp_addr()) == wrap8(m.read(sp_addr()) - 1),
{
}

/// After a reset the program counter is 0, the stack pointer is 7, the low
/// half of internal RAM and every other SFR are 0, and the upper half of
/// internal RAM, program memory and external RAM keep their contents.
pub proof fn lemma_reset(m: Mach)
    requires
        m.wf(),
    ensures
        reset_spec(m).wf(),
        reset_spec(m).pc == 0,
        reset_spec(m).read(sp_addr()) == 7,
        forall|i: int| 0 <= i < 0x80 ==> reset_spec(m).iram[i] == 0,
        forall|i: int| 0x80 <= i < 256 ==> reset_spec(m).iram[i] == m.iram[i],
        forall|i: int| 0 <= i < 128 && i != 1 ==> reset_spec(m).sfr[i] == 0,
        reset_spec(m).pmem == m.pmem,
        reset_spec(m).xram == m.xram,
{
}

/// Bitwise facts about the three flag positions: setting or clearing any
/// of PSW bits 7, 6 and 2 leaves the remaining bits 5, 4, 3, 1 and 0 (mask
/// 0x3B) alone, and each write lands only in its own bit.
proof fn lemma_flag_masks(x: u8)
    by (bit_vector)
    ensures
        (x | 0x80) & 0x3B == x & 0x3B,
        (x & 0x7F) & 0x3B == x & 0x3B,
        (x | 0x40) & 0x3B == x & 0x3B,
        (x & 0xBF) & 0x3B == x & 0x3B,
        (x | 0x04) & 0x3B == x & 0x3B,
        (x & 0xFB) & 0x3B == x & 0x3B,
        (x | 0x80) & 0x80 != 0,
        (x & 0x7F) & 0x80 == 0,
        (x | 0x40) & 0x80 == x & 0x80,
        (x & 0xBF) & 0x80 == x & 0x80,
        (x | 0x04) & 0x80 == x & 0x80,
        (x & 0xFB) & 0x80 == x & 0x80,
        (x | 0x40) & 0x40 != 0,
        (x & 0xBF) & 0x40 == 0,
        (x | 0x04) & 0x40 == x & 0x40,
        (x & 0xFB) & 0x40 == x & 0x40,
        (x | 0x04) & 0x04 != 0,
        (x & 0xFB) & 0x04 == 0,
{
}

/// The core's flag writer touches only PSW bits 7, 6 and 2: the user flag,
/// the bank-select bits, the reserved bit and the parity bit (mask 0x3B)
/// keep whatever value the program gave them, and nothing outside PSW
/// changes. The three flags land exactly in their bits.
pub proof fn lemma_update_psw_preserves(m: Mach, c: bool, ac: bool, ov: bool)
    requires
        m.wf(),
    ensures
        update_psw_spec(m, c, ac, ov).read(psw_addr()) & 0x3B == m.read(psw_addr()) & 0x3B,
        (update_psw_spec(m, c, ac, ov).read(psw_addr()) & 0x80 != 0) == c,
        (update_psw_spec(m, c, ac, ov).read(psw_addr()) & 0x40 != 0) == ac,
        (update_psw_spec(m, c, ac, ov).read(psw_addr()) & 0x04 != 0) == ov,
        update_psw_spec(m, c, ac, ov).pc == m.pc,
        update_psw_spec(m, c, ac, ov).iram == m.iram,
        update_psw_spec(m, c, ac, ov).pmem == m.pmem,
        update_psw_spec(m, c, ac, ov).xram == m.xram,
        forall|j: int| 0 <= j < 128 && j != 0x50 ==> update_psw_spec(m, c, ac, ov).sfr[j]
            == m.sfr[j],
{
    let p0 = m.read(psw_addr());
    let p1 = if c { p0 | 0x80 } else { p0 & 0x7F };
    let p2 = if ac { p1 | 0x40 } else { p1 & 0xBF };
    lemma_flag_masks(p0);
    lemma_flag_masks(p1);
    lemma_flag_masks(p2);
}

/// A push followed by a pop hands back the pushed value, restores the
/// stack pointer, and changes the machine only at the stack slot that the
/// push wrote (one past the old stack pointer, wrapping).
pub proof fn lemma_push_pop(m: Mach, v: u8)
    requires
        m.wf(),
    ensures
        pop_spec(push_spec(m, v)).1 == v,
        pop_spec(push_spec(m, v)).0 == (Mach {
            iram: m.iram.update(wrap8(m.read(sp_addr()) + 1) as int, v),
            ..m
        }),
{
    let slot = wrap8(m.read(sp_addr()) + 1);
    assert(pop_spec(push_spec(m, v)).0.sfr =~= m.sfr);
    assert(pop_spec(push_spec(m, v)).0 =~= (Mach {
        iram: m.iram.update(slot as int, v),
        ..m
    }));
}

/// A 16-bit value is rebuilt exactly from its two bytes.
proof fn lemma_u16_bytes(x: u16)
    by (bit_vector)
    ensures
        ((((x >> 8) as u8) as u16) << 8) | ((x as u8) as u16) == x,
{
}

/// A call that is immediately returned from comes back to the byte after
/// the call: with `lcall` at the program counter and `ret` at the call
/// target, two steps leave the program counter just past the three-byte
/// `lcall`, and the stack pointer where it started.
pub proof fn lemma_lcall_ret(m: Mach)
    requires
        m.wf(),
        m.pmem[m.pc as int] == 0x12,
        m.pmem[((m.pmem[wrap16(m.pc + 1) as int] as u16) << 8 | (m.pmem[wrap16(m.pc + 2) as int] as u16)) as int] == 0x22,
    ensures
        step_spec(step_spec(m)).pc == wrap16(m.pc + 3),
        step_spec(step_spec(m)).read(sp_addr()) == m.read(sp_addr()),
{
    let sp0 = m.read(sp_addr());
    let s1 = wrap8(sp0 + 1);
    let s2 = wrap8(s1 + 1);
    assert(s1 != s2);
    assert(wrap8(s2 - 1) == s1);
    assert(wrap16(wrap16(m.pc + 1) + 1) == wrap16(m.pc + 2));
    assert(wrap16(wrap16(m.pc + 2) + 1) == wrap16(m.pc + 3));
    lemma_u16_bytes(wrap16(m.pc + 3));
}

/// The nibble swap written by `swap a`, applied twice, is the identity.
proof fn lemma_swap_twice(a: u8)
    by (bit_vector)
    ensures
        (((a >> 4) | (a & 0xF) << 4) >> 4) | (((a >> 4) | (a & 0xF) << 4) & 0xF) << 4 == a,
{
}

/// Two consecutive `swap a` instructions restore the accumulator and leave
/// the rest of the machine as two plain program-counter advances.
pub proof fn lemma_swap_swap(m: Mach)
    requires
        m.wf(),
        m.pmem[m.pc as int] == 0xC4,
        m.pmem[wrap16(m.pc + 1) as int] == 0xC4,
    ensures
        step_spec(step_spec(m)).read(acc_addr()) == m.read(acc_addr()),
        step_spec(step_spec(m)).pc == wrap16(m.pc + 2),
        step_spec(step_spec(m)).read(psw_addr()) == m.read(psw_addr()),
{
    lemma_swap_twice(m.read(acc_addr()));
    assert(wrap16(wrap16(m.pc + 1) + 1) == wrap16(m.pc + 2));
}

/// Complementing a byte twice is the identity.
proof fn lemma_cpl_twice(a: u8)
    by (bit_vector)
    ensures
        !(!a) == a,
{
}

/// Two consecutive `cpl a` instructions restore the accumulator.
pub proof fn lemma_cpl_cpl(m: Mach)
    requires
        m.wf(),
        m.pmem[m.pc as int] == 0xF4,
        m.pmem[wrap16(m.pc + 1) as int] == 0xF4,
    ensures
        step_spec(step_spec(m)).read(acc_addr()) == m.read(acc_addr()),
        step_spec(step_spec(m)).pc == wrap16(m.pc + 2),
        step_spec(step_spec(m)).read(psw_addr()) == m.read(psw_addr()),
{
    lemma_cpl_twice(m.read(acc_addr()));
    assert(wrap16(wrap16(m.pc + 1) + 1) == wrap16(m.pc + 2));
}

/// The byte rotations written by `rr a` and `rl a` undo one another.
proof fn lemma_rr_then_rl(a: u8)
    by (bit_vector)
    ensures
        ({
            let b = if a & 1 == 0 { a >> 1 } else { 0x80 | (a >> 1) };
            (if b & 0x80 == 0 { b << 1 } else { (b << 1) | 1 }) == a
        }),
{
}

/// `rr a` followed by `rl a` restores the accumulator; neither touches the
/// carry, so PSW is untouched as well.
pub proof fn lemma_rr_rl(m: Mach)
    requires
        m.wf(),
        m.pmem[m.pc as int] == 0x03,
        m.pmem[wrap16(m.pc + 1) as int] == 0x23,
    ensures
        step_spec(step_spec(m)).read(acc_addr()) == m.read(acc_addr()),
        step_spec(step_spec(m)).pc == wrap16(m.pc + 2),
        step_spec(step_spec(m)).read(psw_addr()) == m.read(psw_addr()),
{
    lemma_rr_then_rl(m.read(acc_addr()));
    assert(wrap16(wrap16(m.pc + 1) + 1) == wrap16(m.pc + 2));
}

/// The 9-bit rotations written by `rrc a` and `rlc a` undo one another:
/// the accumulator and the whole PSW, carry included, come back.
proof fn lemma_rrc_then_rlc(a: u8, p: u8)
    by (bit_vector)
    ensures
        ({
            let a1 = if p & 0x80 == 0 { a >> 1 } else { 0x80 | (a >> 1) };
            let p1 = if a & 1 == 0 { p & 0x7F } else { p | 0x80 };
            let a2 = if p1 & 0x80 == 0 { a1 << 1 } else { (a1 << 1) | 1 };
            let p2 = if a1 & 0x80 == 0 { p1 & 0x7F } else { p1 | 0x80 };
            a2 == a && p2 == p
        }),
{
}

/// `rrc a` followed by `rlc a` restores both the accumulator and PSW.
pub proof fn lemma_rrc_rlc(m: Mach)
    requires
        m.wf(),
        m.pmem[m.pc as int] == 0x13,
        m.pmem[wrap16(m.pc + 1) as int] == 0x33,
    ensures
        step_spec(step_spec(m)).read(acc_addr()) == m.read(acc_addr()),
        step_spec(step_spec(m)).read(psw_addr()) == m.read(psw_addr()),
        step_spec(step_spec(m)).pc == wrap16(m.pc + 2),
{
    lemma_rrc_then_rlc(m.read(acc_addr()), m.read(psw_addr()));
    assert(wrap16(wrap16(m.pc + 1) + 1) == wrap16(m.pc + 2));
}

/// Clearing a bit, setting it, then clearing it again leaves every bit
/// outside the mask exactly as it began, and the masked bit clear.
proof fn lemma_clr_setb_clr(x: u8, mask: u8)
    by (bit_vector)
    ensures
        ((((x & !mask) | mask) & !mask) & !mask) == (((x & !mask) | mask) & !mask),
        (((x & !mask) | mask) & !mask) & !mask == x & !mask,
        (((x & !mask) | mask) & !mask) & mask == 0,
{
}

/// `clr bit; setb bit; clr bit` on the same bit address leaves every other
/// bit of the addressed byte unchanged, clears the addressed bit, and
/// touches nothing else but the program counter.
pub proof fn lemma_clr_setb_clr_bit(m: Mach, b: u8)
    requires
        m.wf(),
        m.pmem[m.pc as int] == 0xC2,
        m.pmem[wrap16(m.pc + 1) as int] == b,
        m.pmem[wrap16(m.pc + 2) as int] == 0xD2,
        m.pmem[wrap16(m.pc + 3) as int] == b,
        m.pmem[wrap16(m.pc + 4) as int] == 0xC2,
        m.pmem[wrap16(m.pc + 5) as int] == b,
    ensures
        step_spec(step_spec(step_spec(m))).read(bit_of(b).0) & !bit_of(b).1 == m.read(
            bit_of(b).0,
        ) & !bit_of(b).1,
        step_spec(step_spec(step_spec(m))).read(bit_of(b).0) & bit_of(b).1 == 0,
        step_spec(step_spec(step_spec(m))) == m.write(
            bit_of(b).0,
            ((m.read(bit_of(b).0) & !bit_of(b).1) | bit_of(b).1) & !bit_of(b).1,
        ).with_pc(wrap16(m.pc + 6)),
{
    let ad = bit_of(b).0;
    let mask = bit_of(b).1;
    lemma_clr_setb_clr(m.read(ad), mask);
    assert(wrap16(wrap16(m.pc + 1) + 1) == wrap16(m.pc + 2));
    assert(wrap16(wrap16(m.pc + 2) + 1) == wrap16(m.pc + 3));
    assert(wrap16(wrap16(m.pc + 3) + 1) == wrap16(m.pc + 4));
    assert(wrap16(wrap16(m.pc + 4) + 1) == wrap16(m.pc + 5));
    assert(wrap16(wrap16(m.pc + 5) + 1) == wrap16(m.pc + 6));
    assert(step_spec(step_spec(step_spec(m))) =~= m.write(
        ad,
        ((m.read(ad) & !mask) | mask) & !mask,
    ).with_pc(wrap16(m.pc + 6)));
}

/// Every instruction that does not transfer control leaves the program
/// counter exactly one encoded instruction further on: the opcode plus
/// every operand, immediate and address byte it consumed, wrapping modulo
/// 2^16. Control transfers consume their bytes the same way and then load
/// the program counter with their target.
#[verifier::rlimit(100)]
pub proof fn lemma_pc_advance(m: Mach)
    requires
        m.wf(),
        op_defined(m.pmem[m.pc as int]),
        !transfers_pc(m.pmem[m.pc as int]),
    ensures
        step_spec(m).pc == wrap16(m.pc + instr_len(m.pmem[m.pc as int])),
{
    assert(wrap16(wrap16(m.pc + 1) + 1) == wrap16(m.pc + 2));
    assert(wrap16(wrap16(m.pc + 2) + 1) == wrap16(m.pc + 3));
}

} // verus!
