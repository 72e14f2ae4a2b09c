use vstd::prelude::*;

use crate::field::{bit, field_of, lemma_bit_mask, write_field};
use crate::mem::MemMap;
use crate::platform::Platform;
use crate::register::RegOp;

verus! {

/// Offset of the DMA register block from the peripheral base.
pub const DMA_OFFSET: usize = 0x0000_7000;
/// The register that enables channels, one bit per channel.
pub const DMA_ENABLE_OFFSET: usize = 0xFF0;
/// Distance between the register blocks of two neighbouring channels.
pub const DMA_CHANNEL_OFFSET: usize = 0x100;
/// The number of channels.
pub const DMA_CHANNELS: u32 = 15;

/// Size in bytes of a control block.
pub const DMA_CONTROL_BLOCK_SIZE: usize = 32;

/// Word offsets inside a control block.
pub const DMA_CB_TI: usize = 0x00;
pub const DMA_CB_SOURCE_AD: usize = 0x04;
pub const DMA_CB_DEST_AD: usize = 0x08;
pub const DMA_CB_TXFR_LEN: usize = 0x0C;
pub const DMA_CB_STRIDE: usize = 0x10;
pub const DMA_CB_NEXTCONBK: usize = 0x14;

/// Registers of a channel: control and status, control block address.
pub const DMA_CS: usize = 0x00;
pub const DMA_CONBLK_AD: usize = 0x04;

/// Peripheral that paces a transfer through DREQ: the SMI block.
pub const DMA_PERMAP_SMI: u32 = 4;

/// The DMA register block, once mapped.
pub struct Peripheral {
    pub channels: Channels,
}

/// The fifteen channels.
pub struct Channels {
    pub channel0: ChannelHandle,
    pub channel1: ChannelHandle,
    pub channel2: ChannelHandle,
    pub channel3: ChannelHandle,
    pub channel4: ChannelHandle,
    pub channel5: ChannelHandle,
    pub channel6: ChannelHandle,
    pub channel7: ChannelHandle,
    pub channel8: ChannelHandle,
    pub channel9: ChannelHandle,
    pub channel10: ChannelHandle,
    pub channel11: ChannelHandle,
    pub channel12: ChannelHandle,
    pub channel13: ChannelHandle,
    pub channel14: ChannelHandle,
}

/// One DMA channel: its bit in the shared enable register and its own
/// register block.
pub trait Channel {
    /// The channel's number, below [`DMA_CHANNELS`].
    spec fn spec_index(&self) -> u32;

    /// The channel's register block.
    spec fn spec_regs(&self) -> MemMap;

    /// The virtual address of the shared enable register.
    spec fn enable_addr(&self) -> usize;

    fn index(&self) -> (r: u32)
        ensures
            r == self.spec_index(),
            r < DMA_CHANNELS,
    ;

    /// Sets this channel's bit of the enable register.
    fn enable(&self) -> (r: RegOp)
        ensures
            self.spec_index() < DMA_CHANNELS,
            r == (RegOp::Modify {
                addr: self.enable_addr(),
                field: field_of(self.spec_index() as usize, self.spec_index() as usize),
                value: 1,
            }),
    ;

    /// Clears this channel's bit of the enable register.
    fn disable(&self) -> (r: RegOp)
        ensures
            self.spec_index() < DMA_CHANNELS,
            r == (RegOp::Modify {
                addr: self.enable_addr(),
                field: field_of(self.spec_index() as usize, self.spec_index() as usize),
                value: 0,
            }),
    ;

    /// Points the channel at the control block at bus address `cba`.
    fn set_control_block_address(&self, cba: u32) -> (r: RegOp)
        ensures
            r == (RegOp::Write {
                addr: self.spec_regs().virt.wrapping_add(DMA_CONBLK_AD),
                value: cba,
            }),
    ;

    /// Sets the reset bit (31) of the control and status register.
    fn reset(&self) -> (r: RegOp)
        ensures
            r == (RegOp::Modify {
                addr: self.spec_regs().virt.wrapping_add(DMA_CS),
                field: field_of(31, 31),
                value: 1,
            }),
    ;

    /// Writes 1 to the end flag (bit 1), which clears it.
    fn clear_end(&self) -> (r: RegOp)
        ensures
            r == (RegOp::Modify {
                addr: self.spec_regs().virt.wrapping_add(DMA_CS),
                field: field_of(1, 1),
                value: 1,
            }),
    ;

    /// Writes 1 to the error flag (bit 8), which clears it.
    fn clear_error(&self) -> (r: RegOp)
        ensures
            r == (RegOp::Modify {
                addr: self.spec_regs().virt.wrapping_add(DMA_CS),
                field: field_of(8, 8),
                value: 1,
            }),
    ;

    /// Sets the active bit (0): the channel runs its control block and this
    /// does not wait.
    fn start(&self) -> (r: RegOp)
        ensures
            r == (RegOp::Modify {
                addr: self.spec_regs().virt.wrapping_add(DMA_CS),
                field: field_of(0, 0),
                value: 1,
            }),
    ;
}

/// Channel `index` of a mapped DMA block.
#[derive(Clone, Copy, Debug)]
pub struct ChannelHandle {
    index: u32,
    enable_virt: usize,
    regs: MemMap,
}

/// Channel `index` of the DMA block mapped as `regs`.
pub open spec fn placed<C: Channel>(c: C, regs: MemMap, index: u32) -> bool {
    &&& c.spec_index() == index
    &&& c.spec_regs() == regs.offset_spec((index * DMA_CHANNEL_OFFSET) as usize)
    &&& c.enable_addr() == regs.virt.wrapping_add(DMA_ENABLE_OFFSET)
}

impl ChannelHandle {
    #[verifier::type_invariant]
    spec fn inv(self) -> bool {
        self.index < DMA_CHANNELS
    }

    fn new(regs: &MemMap, index: u32) -> (r: ChannelHandle)
        requires
            index < DMA_CHANNELS,
        ensures
            placed(r, *regs, index),
    {
        ChannelHandle {
            index,
            enable_virt: regs.virt.wrapping_add(DMA_ENABLE_OFFSET),
            regs: regs.offset(index as usize * DMA_CHANNEL_OFFSET),
        }
    }
}

impl Channel for ChannelHandle {
    closed spec fn spec_index(&self) -> u32 {
        self.index
    }

    closed spec fn spec_regs(&self) -> MemMap {
        self.regs
    }

    closed spec fn enable_addr(&self) -> usize {
        self.enable_virt
    }

    fn index(&self) -> (r: u32) {
        proof {
            use_type_invariant(self);
        }
        self.index
    }

    fn enable(&self) -> (r: RegOp) {
        let k = self.index() as usize;
        RegOp::Modify { addr: self.enable_virt, field: bit(k), value: 1 }
    }

    fn disable(&self) -> (r: RegOp) {
        let k = self.index() as usize;
        RegOp::Modify { addr: self.enable_virt, field: bit(k), value: 0 }
    }

    fn set_control_block_address(&self, cba: u32) -> (r: RegOp) {
        RegOp::Write { addr: self.regs.virt.wrapping_add(DMA_CONBLK_AD), value: cba }
    }

    fn reset(&self) -> (r: RegOp) {
        RegOp::Modify { addr: self.regs.virt.wrapping_add(DMA_CS), field: bit(31), value: 1 }
    }

    fn clear_end(&self) -> (r: RegOp) {
        RegOp::Modify { addr: self.regs.virt.wrapping_add(DMA_CS), field: bit(1), value: 1 }
    }

    fn clear_error(&self) -> (r: RegOp) {
        RegOp::Modify { addr: self.regs.virt.wrapping_add(DMA_CS), field: bit(8), value: 1 }
    }

    fn start(&self) -> (r: RegOp) {
        RegOp::Modify { addr: self.regs.virt.wrapping_add(DMA_CS), field: bit(0), value: 1 }
    }
}

impl Peripheral {
    /// The physical address of the DMA register block.
    pub fn phys(base: &Platform) -> (r: usize)
        ensures
            r == base.phys.wrapping_add(DMA_OFFSET),
    {
        base.phys.wrapping_add(DMA_OFFSET)
    }

    /// The channels of a DMA block whose registers are mapped at `virt`.
    pub fn new(base: &Platform, virt: usize) -> (r: Peripheral)
        ensures
            ({
                let regs = MemMap {
                    bus: base.bus.wrapping_add(DMA_OFFSET),
                    phys: base.phys.wrapping_add(DMA_OFFSET),
                    virt,
                };
                &&& placed(r.channels.channel0, regs, 0)
                &&& placed(r.channels.channel1, regs, 1)
                &&& placed(r.channels.channel2, regs, 2)
                &&& placed(r.channels.channel3, regs, 3)
                &&& placed(r.channels.channel4, regs, 4)
                &&& placed(r.channels.channel5, regs, 5)
                &&& placed(r.channels.channel6, regs, 6)
                &&& placed(r.channels.channel7, regs, 7)
                &&& placed(r.channels.channel8, regs, 8)
                &&& placed(r.channels.channel9, regs, 9)
                &&& placed(r.channels.channel10, regs, 10)
                &&& placed(r.channels.channel11, regs, 11)
                &&& placed(r.channels.channel12, regs, 12)
                &&& placed(r.channels.channel13, regs, 13)
                &&& placed(r.channels.channel14, regs, 14)
            }),
    {
        let regs = MemMap {
            bus: base.bus.wrapping_add(DMA_OFFSET),
            phys: base.phys.wrapping_add(DMA_OFFSET),
            virt,
        };
        Peripheral {
            channels: Channels {
                channel0: ChannelHandle::new(&regs, 0),
                channel1: ChannelHandle::new(&regs, 1),
                channel2: ChannelHandle::new(&regs, 2),
                channel3: ChannelHandle::new(&regs, 3),
                channel4: ChannelHandle::new(&regs, 4),
                channel5: ChannelHandle::new(&regs, 5),
                channel6: ChannelHandle::new(&regs, 6),
                channel7: ChannelHandle::new(&regs, 7),
                channel8: ChannelHandle::new(&regs, 8),
                channel9: ChannelHandle::new(&regs, 9),
                channel10: ChannelHandle::new(&regs, 10),
                channel11: ChannelHandle::new(&regs, 11),
                channel12: ChannelHandle::new(&regs, 12),
                channel13: ChannelHandle::new(&regs, 13),
                channel14: ChannelHandle::new(&regs, 14),
            },
        }
    }
}

/// Enabling channel `k` sets bit `k` of the enable register and leaves
/// every other bit `j` as it was; disabling clears bit `k` alone, and the
/// two undo each other.
pub proof fn lemma_enable_independent(word: u32, k: u32, j: u32)
    requires
        k < DMA_CHANNELS,
        j < 32,
    ensures
        ({
            let f = field_of(k as usize, k as usize);
            let on = write_field(word, f, 1);
            let off = write_field(word, f, 0);
            &&& (on >> k) & 1 == 1
            &&& (off >> k) & 1 == 0
            &&& j != k ==> (on >> j) & 1 == (word >> j) & 1
            &&& j != k ==> (off >> j) & 1 == (word >> j) & 1
            &&& (word >> k) & 1 == 0 ==> write_field(on, f, 0) == word
            &&& (word >> k) & 1 == 1 ==> write_field(off, f, 1) == word
        }),
{
    lemma_bit_mask(k as usize);
    assert((k as usize) as u32 == k);
    assert({
        let m = 1u32 << k;
        let on = (word & !m) | (1u32 << k);
        let off = (word & !m) | (0u32 << k);
        &&& (on >> k) & 1 == 1
        &&& (off >> k) & 1 == 0
        &&& j != k ==> (on >> j) & 1 == (word >> j) & 1
        &&& j != k ==> (off >> j) & 1 == (word >> j) & 1
        &&& (word >> k) & 1 == 0 ==> (on & !m) | (0u32 << k) == word
        &&& (word >> k) & 1 == 1 ==> (off & !m) | (1u32 << k) == word
    }) by (bit_vector)
        requires
            k < 32,
            j < 32,
    ;
}

} // verus!
