use vstd::prelude::*;

verus! {

/// One region of memory as seen from the three address spaces: the DMA
/// bus, the CPU's physical addresses, and this process's virtual addresses.
#[derive(Clone, Copy, Debug)]
pub struct MemMap {
    pub bus: usize,
    pub phys: usize,
    pub virt: usize,
}

impl MemMap {
    /// The region `by` bytes further on, in all three address spaces.
    pub open spec fn offset_spec(self, by: usize) -> MemMap {
        MemMap {
            bus: self.bus.wrapping_add(by),
            phys: self.phys.wrapping_add(by),
            virt: self.virt.wrapping_add(by),
        }
    }

    /// The region `by` bytes further on, in all three address spaces.
    pub fn offset(&self, by: usize) -> (r: MemMap)
        ensures
            r == self.offset_spec(by),
    {
        MemMap {
            bus: self.bus.wrapping_add(by),
            phys: self.phys.wrapping_add(by),
            virt: self.virt.wrapping_add(by),
        }
    }
}

} // verus!
