use vstd::prelude::*;

pub use self::addr::Addr;
mod addr;

pub use self::mem::Mem;
mod mem;

pub use self::reg::Reg;
mod reg;

pub use self::isa::Isa;
mod isa;

pub mod model;

pub mod semantics;

pub mod laws;

use crate::model::Mach;

verus! {

/// A complete 8051 machine: the program counter and the four backing
/// stores. All registers, flags and register banks live inside `iram` and
/// `sfr`; there is no separate copy of any of them.
pub struct Mcu {
    pub pc: u16,
    pub iram: Vec<u8>,
    pub sfr: Vec<u8>,
    pub pmem: Vec<u8>,
    pub xram: Vec<u8>,
}

impl Mcu {
    /// Construct a machine from a program image of at most 64 KiB; the
    /// image is padded with zeros to the full size of program memory.
    /// Internal RAM, the SFRs and external RAM start zeroed.
    pub fn new(pmem: Vec<u8>) -> (r: Mcu)
        requires
            pmem@.len() <= 0x10000,
        ensures
            r.mach().wf(),
            r.mach().pc == 0,
            forall|i: int| 0 <= i < 256 ==> r.mach().iram[i] == 0,
            forall|i: int| 0 <= i < 128 ==> r.mach().sfr[i] == 0,
            forall|i: int| 0 <= i < 0x10000 ==> r.mach().xram[i] == 0,
            forall|i: int| 0 <= i < pmem@.len() ==> r.mach().pmem[i] == pmem@[i],
            forall|i: int| pmem@.len() <= i < 0x10000 ==> r.mach().pmem[i] == 0,
    {
        let mut rom = pmem;
        while rom.len() < 0x10000
            invariant
                rom@.len() <= 0x10000,
                forall|i: int| 0 <= i < pmem@.len() ==> rom@[i] == pmem@[i],
                forall|i: int| pmem@.len() <= i < rom@.len() ==> rom@[i] == 0,
                pmem@.len() <= rom@.len(),
            decreases 0x10000 - rom@.len(),
        {
            rom.push(0);
        }
        Mcu {
            pc: 0,
            iram: zeroed(256),
            sfr: zeroed(128),
            pmem: rom,
            xram: zeroed(0x10000),
        }
    }
}

/// A vector of `n` zero bytes.
fn zeroed(n: usize) -> (r: Vec<u8>)
    ensures
        r@.len() == n,
        forall|i: int| 0 <= i < n ==> r@[i] == 0,
{
    let mut v: Vec<u8> = Vec::new();
    while v.len() < n
        invariant
            v@.len() <= n,
            forall|i: int| 0 <= i < v@.len() ==> v@[i] == 0,
        decreases n - v@.len(),
    {
        v.push(0);
    }
    v
}

impl Mem for Mcu {
    open spec fn mach(&self) -> Mach {
        Mach {
            pc: self.pc,
            iram: self.iram@,
            sfr: self.sfr@,
            pmem: self.pmem@,
            xram: self.xram@,
        }
    }

    fn load(&self, addr: Addr) -> (r: u8) {
        match addr {
            Addr::Reg(i) => if i < 0x80 {
                self.iram[i as usize]
            } else {
                self.sfr[i as usize - 0x80]
            },
            Addr::IRam(i) => self.iram[i as usize],
            Addr::PMem(i) => self.pmem[i as usize],
            Addr::XRam(i) => self.xram[i as usize],
        }
    }

    fn store(&mut self, addr: Addr, value: u8) {
        match addr {
            Addr::Reg(i) => if i < 0x80 {
                self.iram.set(i as usize, value);
            } else {
                self.sfr.set(i as usize - 0x80, value);
            },
            Addr::IRam(i) => self.iram.set(i as usize, value),
            // unreachable: stores to program memory are excluded by the
            // precondition, and the model leaves the machine unchanged
            Addr::PMem(_) => (),
            Addr::XRam(i) => self.xram.set(i as usize, value),
        }
    }
}

impl Reg for Mcu {
}

impl Isa for Mcu {
    fn pc(&self) -> u16 {
        self.pc
    }

    fn set_pc(&mut self, value: u16) {
        self.pc = value;
    }
}

} // verus!
