use vstd::prelude::*;

verus! {

/// A tagged address: which memory space a byte lives in, and where.
#[derive(Clone, Copy, Debug, PartialEq, Eq, Structural)]
pub enum Addr {
    /// Direct-access space, 256 bytes.
    /// The low 128 bytes are shared with internal RAM; the high 128 bytes
    /// are the special function registers.
    Reg(u8),
    /// Internal RAM, 256 bytes, reached by indirect access.
    /// The low 128 bytes are also reachable through `Reg`.
    IRam(u8),
    /// Program memory, 65536 bytes, read-only.
    PMem(u16),
    /// External RAM, 65536 bytes, reached by `movx`.
    XRam(u16),
}

} // verus!
