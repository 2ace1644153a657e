//! The memory that processes are loaded from and run in.

use vstd::prelude::*;

verus! {

/// A range of memory, by its first address and its length in bytes.
#[derive(Clone, Copy, Debug, PartialEq, Eq, Structural)]
pub struct Region {
    pub start: usize,
    pub len: usize,
}

impl Region {
    /// Whether the byte at `address` belongs to the region.
    pub open spec fn contains(self, address: int) -> bool {
        self.start <= address < self.start + self.len
    }

    /// The region from `start` up to `end`, two addresses that the linker script
    /// defines; the byte at `end` is outside.
    pub fn between(start: usize, end: usize) -> (r: Region)
        requires
            start <= end,
        ensures
            r == (Region { start, len: (end - start) as usize }),
            forall|address: int| #[trigger] r.contains(address) <==> start <= address < end,
    {
        Region { start, len: end - start }
    }
}

} // verus!
