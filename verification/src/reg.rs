use vstd::prelude::*;
use crate::addr::Addr;
use crate::mem::Mem;
use crate::model::{acc_addr, bit_of, breg_addr, dps_addr, port_addr, psw_addr, sp_addr};

verus! {

/// Pure address computation for the architectural registers, expressed over
/// the memory the registers live in. Nothing here mutates state; `r` and
/// `dptr` read PSW and DPS to resolve the active bank and data pointer.
pub trait Reg: Mem {
    /// Address of Rn in the bank selected by PSW bits 3-4.
    fn r(&self, index: u8) -> (a: Addr)
        requires
            self.mach().wf(),
            index < 8,
        ensures
            a == self.mach().rn_addr(index),
    {
        let psw_a = self.psw();
        let psw = self.load(psw_a);
        let rs: u8 = (psw >> 3) & 3;
        proof {
            assert((psw >> 3) & 3 < 4) by (bit_vector);
        }
        Addr::Reg(rs * 8 + index)
    }

    /// Byte address and one-hot mask of a bit address.
    fn bit(&self, bit: u8) -> (r: (Addr, u8))
        ensures
            r == bit_of(bit),
    {
        let byte: u8 = bit / 8;
        let addr = if byte < 0x10 {
            Addr::Reg(0x20 + byte)
        } else {
            Addr::Reg(byte * 8)
        };
        let mask: u8 = 1u8 << (bit % 8);
        (addr, mask)
    }

    /// Address of I/O port `index`, for `index` below 4.
    fn p(&self, index: u8) -> (a: Addr)
        requires
            index < 4,
        ensures
            a == port_addr(index),
    {
        Addr::Reg(0x80 + index * 0x10)
    }

    /// Address of the stack pointer.
    fn sp(&self) -> (a: Addr)
        ensures
            a == sp_addr(),
    {
        Addr::Reg(0x81)
    }

    /// Address of the low or high byte of the data pointer selected by DPS
    /// bit 0.
    fn dptr(&self, index: bool) -> (a: Addr)
        requires
            self.mach().wf(),
        ensures
            a == self.mach().dptr_addr(index),
    {
        let dps_a = self.dps();
        if self.load(dps_a) & 1 == 0 {
            Addr::Reg(if index { 0x83 } else { 0x82 })
        } else {
            Addr::Reg(if index { 0x85 } else { 0x84 })
        }
    }

    /// Address of the data pointer selector.
    fn dps(&self) -> (a: Addr)
        ensures
            a == dps_addr(),
    {
        Addr::Reg(0x86)
    }

    /// Address of the program status word.
    fn psw(&self) -> (a: Addr)
        ensures
            a == psw_addr(),
    {
        Addr::Reg(0xD0)
    }

    /// Address of the accumulator.
    fn a(&self) -> (a: Addr)
        ensures
            a == acc_addr(),
    {
        Addr::Reg(0xE0)
    }

    /// Address of the B register.
    fn b(&self) -> (a: Addr)
        ensures
            a == breg_addr(),
    {
        Addr::Reg(0xF0)
    }
}

} // verus!
