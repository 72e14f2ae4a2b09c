use vstd::prelude::*;

use crate::field::{bits, field_of};
use crate::mem::MemMap;
use crate::platform::Platform;
use crate::register::RegOp;

verus! {

/// Offset of the GPIO register block from the peripheral base.
pub const GPIO_OFFSET: usize = 0x0020_0000;
/// The number of pins.
pub const GPIO_PINS: u32 = 28;

/// Functions a pin can take.
#[derive(Clone, Copy, Debug, PartialEq, Eq)]
pub enum Mode {
    Input,
    Output,
    Alt0,
    Alt1,
    Alt2,
    Alt3,
    Alt4,
    Alt5,
}

/// The 3-bit code of a function in a function select register.
pub open spec fn mode_code(mode: Mode) -> u32 {
    match mode {
        Mode::Input => 0b000,
        Mode::Output => 0b001,
        Mode::Alt0 => 0b100,
        Mode::Alt1 => 0b101,
        Mode::Alt2 => 0b110,
        Mode::Alt3 => 0b111,
        Mode::Alt4 => 0b011,
        Mode::Alt5 => 0b010,
    }
}

/// The register and the field that select the function of pin `index`:
/// ten pins to a register, three bits to a pin.
pub open spec fn select_op(virt: usize, index: u32, mode: Mode) -> RegOp {
    let shift = ((index % 10) * 3) as usize;
    RegOp::Modify {
        addr: virt.wrapping_add(((index / 10) * 4) as usize),
        field: field_of((shift + 2) as usize, shift),
        value: mode_code(mode),
    }
}

/// The GPIO register block, once mapped.
pub struct Peripheral {
    pub pins: Pins,
}

/// The pins.
pub struct Pins {
    pub pin0: PinHandle,
    pub pin1: PinHandle,
    pub pin2: PinHandle,
    pub pin3: PinHandle,
    pub pin4: PinHandle,
    pub pin5: PinHandle,
    pub pin6: PinHandle,
    pub pin7: PinHandle,
    pub pin8: PinHandle,
    pub pin9: PinHandle,
    pub pin10: PinHandle,
    pub pin11: PinHandle,
    pub pin12: PinHandle,
    pub pin13: PinHandle,
    pub pin14: PinHandle,
    pub pin15: PinHandle,
    pub pin16: PinHandle,
    pub pin17: PinHandle,
    pub pin18: PinHandle,
    pub pin19: PinHandle,
    pub pin20: PinHandle,
    pub pin21: PinHandle,
    pub pin22: PinHandle,
    pub pin23: PinHandle,
    pub pin24: PinHandle,
    pub pin25: PinHandle,
    pub pin26: PinHandle,
    pub pin27: PinHandle,
}

/// One GPIO pin.
pub trait Pin {
    /// The pin's number, below [`GPIO_PINS`].
    spec fn spec_index(&self) -> u32;

    /// The virtual address of the GPIO register block.
    spec fn block_addr(&self) -> usize;

    fn index(&self) -> (r: u32)
        ensures
            r == self.spec_index(),
            r < GPIO_PINS,
    ;

    /// Gives the pin the function `mode`, leaving the other pins alone.
    fn set_mode(&self, mode: Mode) -> (r: RegOp)
        ensures
            r == select_op(self.block_addr(), self.spec_index(), mode),
    ;
}

/// Pin `index` of a mapped GPIO block.
#[derive(Clone, Copy, Debug)]
pub struct PinHandle {
    index: u32,
    regs: MemMap,
}

impl PinHandle {
    #[verifier::type_invariant]
    spec fn inv(self) -> bool {
        self.index < GPIO_PINS
    }

    fn new(regs: &MemMap, index: u32) -> (r: PinHandle)
        requires
            index < GPIO_PINS,
        ensures
            r.spec_index() == index,
            r.block_addr() == regs.virt,
    {
        PinHandle { index, regs: *regs }
    }
}

impl Pin for PinHandle {
    closed spec fn spec_index(&self) -> u32 {
        self.index
    }

    closed spec fn block_addr(&self) -> usize {
        self.regs.virt
    }

    fn index(&self) -> (r: u32) {
        proof {
            use_type_invariant(self);
        }
        self.index
    }

    fn set_mode(&self, mode: Mode) -> (r: RegOp) {
        let index = self.index();
        let shift = ((index % 10) * 3) as usize;
        let code: u32 = match mode {
            Mode::Input => 0b000,
            Mode::Output => 0b001,
            Mode::Alt0 => 0b100,
            Mode::Alt1 => 0b101,
            Mode::Alt2 => 0b110,
            Mode::Alt3 => 0b111,
            Mode::Alt4 => 0b011,
            Mode::Alt5 => 0b010,
        };
        RegOp::Modify {
            addr: self.regs.virt.wrapping_add(((index / 10) * 4) as usize),
            field: bits(shift + 2, shift),
            value: code,
        }
    }
}

impl Peripheral {
    /// The physical address of the GPIO register block.
    pub fn phys(base: &Platform) -> (r: usize)
        ensures
            r == base.phys.wrapping_add(GPIO_OFFSET),
    {
        base.phys.wrapping_add(GPIO_OFFSET)
    }

    /// The pins of a GPIO block whose registers are mapped at `virt`.
    pub fn new(base: &Platform, virt: usize) -> (r: Peripheral)
        ensures
            r.pins.pin0.spec_index() == 0 && r.pins.pin0.block_addr() == virt,
            r.pins.pin1.spec_index() == 1 && r.pins.pin1.block_addr() == virt,
            r.pins.pin2.spec_index() == 2 && r.pins.pin2.block_addr() == virt,
            r.pins.pin3.spec_index() == 3 && r.pins.pin3.block_addr() == virt,
            r.pins.pin4.spec_index() == 4 && r.pins.pin4.block_addr() == virt,
            r.pins.pin5.spec_index() == 5 && r.pins.pin5.block_addr() == virt,
            r.pins.pin6.spec_index() == 6 && r.pins.pin6.block_addr() == virt,
            r.pins.pin7.spec_index() == 7 && r.pins.pin7.block_addr() == virt,
            r.pins.pin8.spec_index() == 8 && r.pins.pin8.block_addr() == virt,
            r.pins.pin9.spec_index() == 9 && r.pins.pin9.block_addr() == virt,
            r.pins.pin10.spec_index() == 10 && r.pins.pin10.block_addr() == virt,
            r.pins.pin11.spec_index() == 11 && r.pins.pin11.block_addr() == virt,
            r.pins.pin12.spec_index() == 12 && r.pins.pin12.block_addr() == virt,
            r.pins.pin13.spec_index() == 13 && r.pins.pin13.block_addr() == virt,
            r.pins.pin14.spec_index() == 14 && r.pins.pin14.block_addr() == virt,
            r.pins.pin15.spec_index() == 15 && r.pins.pin15.block_addr() == virt,
            r.pins.pin16.spec_index() == 16 && r.pins.pin16.block_addr() == virt,
            r.pins.pin17.spec_index() == 17 && r.pins.pin17.block_addr() == virt,
            r.pins.pin18.spec_index() == 18 && r.pins.pin18.block_addr() == virt,
            r.pins.pin19.spec_index() == 19 && r.pins.pin19.block_addr() == virt,
            r.pins.pin20.spec_index() == 20 && r.pins.pin20.block_addr() == virt,
            r.pins.pin21.spec_index() == 21 && r.pins.pin21.block_addr() == virt,
            r.pins.pin22.spec_index() == 22 && r.pins.pin22.block_addr() == virt,
            r.pins.pin23.spec_index() == 23 && r.pins.pin23.block_addr() == virt,
            r.pins.pin24.spec_index() == 24 && r.pins.pin24.block_addr() == virt,
            r.pins.pin25.spec_index() == 25 && r.pins.pin25.block_addr() == virt,
            r.pins.pin26.spec_index() == 26 && r.pins.pin26.block_addr() == virt,
            r.pins.pin27.spec_index() == 27 && r.pins.pin27.block_addr() == virt,
    {
        let regs = MemMap {
            bus: base.bus.wrapping_add(GPIO_OFFSET),
            phys: base.phys.wrapping_add(GPIO_OFFSET),
            virt,
        };
        Peripheral {
            pins: Pins {
                pin0: PinHandle::new(&regs, 0),
                pin1: PinHandle::new(&regs, 1),
                pin2: PinHandle::new(&regs, 2),
                pin3: PinHandle::new(&regs, 3),
                pin4: PinHandle::new(&regs, 4),
                pin5: PinHandle::new(&regs, 5),
                pin6: PinHandle::new(&regs, 6),
                pin7: PinHandle::new(&regs, 7),
                pin8: PinHandle::new(&regs, 8),
                pin9: PinHandle::new(&regs, 9),
                pin10: PinHandle::new(&regs, 10),
                pin11: PinHandle::new(&regs, 11),
                pin12: PinHandle::new(&regs, 12),
                pin13: PinHandle::new(&regs, 13),
                pin14: PinHandle::new(&regs, 14),
                pin15: PinHandle::new(&regs, 15),
                pin16: PinHandle::new(&regs, 16),
                pin17: PinHandle::new(&regs, 17),
                pin18: PinHandle::new(&regs, 18),
                pin19: PinHandle::new(&regs, 19),
                pin20: PinHandle::new(&regs, 20),
                pin21: PinHandle::new(&regs, 21),
                pin22: PinHandle::new(&regs, 22),
                pin23: PinHandle::new(&regs, 23),
                pin24: PinHandle::new(&regs, 24),
                pin25: PinHandle::new(&regs, 25),
                pin26: PinHandle::new(&regs, 26),
                pin27: PinHandle::new(&regs, 27),
            },
        }
    }
}

} // verus!
