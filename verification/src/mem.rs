use vstd::prelude::*;
use crate::addr::Addr;
use crate::model::Mach;

verus! {

/// A byte-addressable memory over the four address spaces. `mach` is the
/// mathematical state an implementor exposes; `load` and `store` are its
/// only means of access, and both follow the routing of `Mach::read` and
/// `Mach::write`, so the low 128 bytes of `Reg` and `IRam` share storage.
pub trait Mem: Sized {
    /// The mathematical state of this memory.
    spec fn mach(&self) -> Mach;

    fn load(&self, addr: Addr) -> (r: u8)
        requires
            self.mach().wf(),
        ensures
            r == self.mach().read(addr),
    ;

    /// Program memory is read-only: a store there is excluded.
    fn store(&mut self, addr: Addr, value: u8)
        requires
            old(self).mach().wf(),
            !(addr is PMem),
        ensures
            final(self).mach() == old(self).mach().write(addr, value),
            final(self).mach().wf(),
    ;
}

} // verus!
