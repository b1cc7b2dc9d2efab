use vstd::prelude::*;
use crate::addr::Addr;

verus! {

/// The mathematical state of the machine: the program counter and the four
/// backing stores. Registers, flags and register banks are projections over
/// these sequences; there is no separate copy of any of them.
#[verifier::ext_equal]
pub struct Mach {
    pub pc: u16,
    pub iram: Seq<u8>,
    pub sfr: Seq<u8>,
    pub pmem: Seq<u8>,
    pub xram: Seq<u8>,
}

impl Mach {
    /// The four stores have their architectural sizes.
    pub open spec fn wf(self) -> bool {
        &&& self.iram.len() == 256
        &&& self.sfr.len() == 128
        &&& self.pmem.len() == 0x10000
        &&& self.xram.len() == 0x10000
    }

    /// Total routing of a load: `Reg` goes to internal RAM below 0x80 and to
    /// the SFR window above, `IRam` always to internal RAM, the 16-bit spaces
    /// to their own stores.
    pub open spec fn read(self, addr: Addr) -> u8 {
        match addr {
            Addr::Reg(i) => if i < 0x80 { self.iram[i as int] } else { self.sfr[i - 0x80] },
            Addr::IRam(i) => self.iram[i as int],
            Addr::PMem(i) => self.pmem[i as int],
            Addr::XRam(i) => self.xram[i as int],
        }
    }

    /// Routing of a store, with the same sharing as `read`. Program memory
    /// is read-only: a store there leaves the machine unchanged, and the
    /// executable layer rules it out by precondition.
    pub open spec fn write(self, addr: Addr, value: u8) -> Mach {
        match addr {
            Addr::Reg(i) => if i < 0x80 {
                Mach { iram: self.iram.update(i as int, value), ..self }
            } else {
                Mach { sfr: self.sfr.update(i - 0x80, value), ..self }
            },
            Addr::IRam(i) => Mach { iram: self.iram.update(i as int, value), ..self },
            Addr::PMem(_) => self,
            Addr::XRam(i) => Mach { xram: self.xram.update(i as int, value), ..self },
        }
    }

    /// The machine with the program counter replaced.
    pub open spec fn with_pc(self, pc: u16) -> Mach {
        Mach { pc: pc, ..self }
    }

    /// Register bank select: PSW bits 3 and 4.
    pub open spec fn bank(self) -> u8 {
        (self.read(psw_addr()) >> 3) & 3
    }

    /// Address of Rn in the currently selected bank.
    pub open spec fn rn_addr(self, n: u8) -> Addr {
        Addr::Reg((self.bank() * 8 + n) as u8)
    }

    /// Low or high byte of the data pointer selected by DPS bit 0.
    pub open spec fn dptr_addr(self, high: bool) -> Addr {
        if self.read(dps_addr()) & 1 == 0 {
            Addr::Reg(if high { 0x83 } else { 0x82 })
        } else {
            Addr::Reg(if high { 0x85 } else { 0x84 })
        }
    }

    /// The 16-bit value of the currently selected data pointer.
    pub open spec fn dptr16(self) -> u16 {
        (self.read(self.dptr_addr(false)) as u16) | ((self.read(self.dptr_addr(true)) as u16) << 8)
    }
}

/// Accumulator.
pub open spec fn acc_addr() -> Addr {
    Addr::Reg(0xE0)
}

/// B register.
pub open spec fn breg_addr() -> Addr {
    Addr::Reg(0xF0)
}

/// Stack pointer.
pub open spec fn sp_addr() -> Addr {
    Addr::Reg(0x81)
}

/// Program status word.
pub open spec fn psw_addr() -> Addr {
    Addr::Reg(0xD0)
}

/// Data pointer selector.
pub open spec fn dps_addr() -> Addr {
    Addr::Reg(0x86)
}

/// I/O port, for `index` below 4.
pub open spec fn port_addr(index: u8) -> Addr {
    Addr::Reg((0x80 + index * 0x10) as u8)
}

/// A bit address decodes to a byte address and a one-hot mask: bits
/// 0x00-0x7F live densely in internal RAM at 0x20-0x2F, bits 0x80-0xFF in
/// the SFRs whose addresses are multiples of 8.
pub open spec fn bit_of(bit: u8) -> (Addr, u8) {
    let byte = bit / 8;
    let addr = if byte < 0x10 { Addr::Reg((0x20 + byte) as u8) } else { Addr::Reg((byte * 8) as u8) };
    (addr, 1u8 << (bit % 8))
}

/// The signed value of a byte read as two's complement.
pub open spec fn sext8(x: u8) -> int {
    if x < 0x80 { x as int } else { x as int - 0x100 }
}

/// Reduction modulo 256, for sums and differences that stay within one
/// wrap of the byte range.
pub open spec fn wrap8(v: int) -> u8 {
    if v >= 0x100 { (v - 0x100) as u8 } else if v < 0 { (v + 0x100) as u8 } else { v as u8 }
}

/// Reduction modulo 65536, for sums and differences that stay within one
/// wrap of the 16-bit range.
pub open spec fn wrap16(v: int) -> u16 {
    if v >= 0x10000 { (v - 0x10000) as u16 } else if v < 0 { (v + 0x10000) as u16 } else { v as u16 }
}

} // verus!
