use vstd::prelude::*;

verus! {

/// The size of a page of memory, and of each mapped register block.
pub const PAGE_SIZE: usize = 0x1000;

/// Where a board's peripheral block sits: at `phys` in the CPU's physical
/// address space and at `bus` in the address space that DMA sees.
#[derive(Clone, Copy, Debug)]
pub struct Platform {
    pub bus: usize,
    pub phys: usize,
}

/// The bus address of the peripheral block, the same on every board.
pub const PERIPHERAL_BUS_BASE: usize = 0x7E00_0000;

impl Platform {
    pub fn raspberry_pi_zero_1() -> (r: Platform)
        ensures
            r == (Platform { bus: PERIPHERAL_BUS_BASE, phys: 0x2000_0000 }),
    {
        Platform { bus: PERIPHERAL_BUS_BASE, phys: 0x2000_0000 }
    }

    pub fn raspberry_pi_zero_2() -> (r: Platform)
        ensures
            r == (Platform { bus: PERIPHERAL_BUS_BASE, phys: 0x3F00_0000 }),
    {
        Platform { bus: PERIPHERAL_BUS_BASE, phys: 0x3F00_0000 }
    }

    pub fn raspberry_pi_1() -> (r: Platform)
        ensures
            r == (Platform { bus: PERIPHERAL_BUS_BASE, phys: 0x2000_0000 }),
    {
        Platform { bus: PERIPHERAL_BUS_BASE, phys: 0x2000_0000 }
    }

    pub fn raspberry_pi_2() -> (r: Platform)
        ensures
            r == (Platform { bus: PERIPHERAL_BUS_BASE, phys: 0x3F00_0000 }),
    {
        Platform { bus: PERIPHERAL_BUS_BASE, phys: 0x3F00_0000 }
    }

    pub fn raspberry_pi_3() -> (r: Platform)
        ensures
            r == (Platform { bus: PERIPHERAL_BUS_BASE, phys: 0x3F00_0000 }),
    {
        Platform { bus: PERIPHERAL_BUS_BASE, phys: 0x3F00_0000 }
    }

    pub fn raspberry_pi_4() -> (r: Platform)
        ensures
            r == (Platform { bus: PERIPHERAL_BUS_BASE, phys: 0xFE00_0000 }),
    {
        Platform { bus: PERIPHERAL_BUS_BASE, phys: 0xFE00_0000 }
    }
}

} // verus!
