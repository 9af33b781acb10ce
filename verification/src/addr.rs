//! Address pairs: a file offset and a virtual address that advance together.

use vstd::prelude::*;

verus! {

/// A position in the output image, carried along both axes at once: `addr` is
/// the file offset and `vaddr` the virtual address the loader maps it to.
/// Within the single loadable segment the two differ by a constant bias.
#[derive(Debug, PartialEq, Eq, Structural, Clone, Copy)]
pub struct Addr {
    pub addr: u64,
    pub vaddr: u64,
}

impl Addr {
    /// The zero address pair.
    pub fn zero() -> (r: Addr)
        ensures
            r.addr == 0,
            r.vaddr == 0,
    {
        Addr { addr: 0, vaddr: 0 }
    }

    /// Both components advanced by the same amount.
    pub fn advanced(self, n: u64) -> (r: Addr)
        requires
            self.addr + n <= u64::MAX,
            self.vaddr + n <= u64::MAX,
        ensures
            r.addr == self.addr + n,
            r.vaddr == self.vaddr + n,
    {
        Addr { addr: self.addr + n, vaddr: self.vaddr + n }
    }
}

impl Default for Addr {
    /// The zero address pair, so that an unresolved lookup falls back to
    /// absolute zero.
    fn default() -> (r: Addr)
        ensures
            r.addr == 0,
            r.vaddr == 0,
    {
        Addr { addr: 0, vaddr: 0 }
    }
}

} // verus!
