use vstd::prelude::*;

use crate::dma::{
    Channel, DMA_CB_DEST_AD, DMA_CB_SOURCE_AD, DMA_CB_TI, DMA_CB_TXFR_LEN, DMA_CONBLK_AD,
    DMA_CONTROL_BLOCK_SIZE, DMA_CS, DMA_PERMAP_SMI,
};
use crate::field::{bit, bits, field_of, lemma_bit_mask, read_field, write_bit_field, write_field};
use crate::gpu::GpuMem;
use crate::register::{RegOp, Step};
use crate::smi::{
    clock_divisor_ops, Control, Controller, Device, TransferDir, TransferWidth, WriteSettings,
    SMI_A, SMI_CLOCK_CTL, SMI_CLOCK_DIV, SMI_CLOCK_DIVISOR_MAX, SMI_CS, SMI_D, SMI_DC, SMI_DCS,
    SMI_L,
};

verus! {

/// Nanoseconds per tick of the SMI clock source, which runs at 500 MHz.
pub const NANOS_PER_TICK: u64 = 2;
/// Ticks that every SMI cycle spends beyond its setup, strobe and hold counts.
pub const CYCLE_OVERHEAD_TICKS: u64 = 4;
/// The largest setup, strobe and hold counts.
pub const MAX_SETUP: u64 = 63;
pub const MAX_STROBE: u64 = 127;
pub const MAX_HOLD: u64 = 63;
/// Ticks that one cycle can absorb at the undivided clock.
pub const TICKS_PER_DIVISOR: u64 = 253;

/// The timing of one SMI write cycle.
#[derive(Clone, Copy, Debug, PartialEq, Eq)]
pub struct TimingParameters {
    pub setup: u8,
    pub strobe: u8,
    pub hold: u8,
    pub clock_divisor: u64,
}

/// The smaller of `a` and `b`.
pub open spec fn min(a: int, b: int) -> int {
    if a < b {
        a
    } else {
        b
    }
}

/// The ticks left to spread over one cycle of `duration_ns` nanoseconds
/// once the fixed overhead is paid, never below zero.
pub open spec fn budget(duration_ns: u64) -> int {
    let half = duration_ns / NANOS_PER_TICK;
    if half < CYCLE_OVERHEAD_TICKS {
        0
    } else {
        half - CYCLE_OVERHEAD_TICKS
    }
}

/// The budget split into a clock divisor and, greedily in this order, the
/// setup, strobe and hold counts of the remainder.
pub open spec fn timing_spec(duration_ns: u64) -> TimingParameters {
    let b = budget(duration_ns);
    let rem = b % (TICKS_PER_DIVISOR as int);
    let setup = min(rem, MAX_SETUP as int);
    let strobe = min(rem - setup, MAX_STROBE as int);
    let hold = min(rem - setup - strobe, MAX_HOLD as int);
    TimingParameters {
        setup: setup as u8,
        strobe: strobe as u8,
        hold: hold as u8,
        clock_divisor: (b / (TICKS_PER_DIVISOR as int)) as u64,
    }
}

impl TimingParameters {
    /// The timing of a cycle of `duration_ns` nanoseconds.
    pub fn from_duration(duration_ns: u64) -> (r: TimingParameters)
        ensures
            r == timing_spec(duration_ns),
    {
        let half = duration_ns / NANOS_PER_TICK;
        let budget = if half < CYCLE_OVERHEAD_TICKS {
            0
        } else {
            half - CYCLE_OVERHEAD_TICKS
        };
        let mut rem = budget % TICKS_PER_DIVISOR;
        let clock_divisor = budget / TICKS_PER_DIVISOR;
        let setup = if rem < MAX_SETUP {
            rem
        } else {
            MAX_SETUP
        };
        rem = rem - setup;
        let strobe = if rem < MAX_STROBE {
            rem
        } else {
            MAX_STROBE
        };
        rem = rem - strobe;
        let hold = if rem < MAX_HOLD {
            rem
        } else {
            MAX_HOLD
        };
        TimingParameters {
            setup: setup as u8,
            strobe: strobe as u8,
            hold: hold as u8,
            clock_divisor,
        }
    }
}

/// Every budget is the divisor's share plus the three counts, each within
/// its field; the three counts never pass one undivided period.
pub proof fn lemma_timing_decomposition(duration_ns: u64)
    ensures
        ({
            let t = timing_spec(duration_ns);
            &&& t.setup <= MAX_SETUP
            &&& t.strobe <= MAX_STROBE
            &&& t.hold <= MAX_HOLD
            &&& t.setup + t.strobe + t.hold == budget(duration_ns) % (TICKS_PER_DIVISOR as int)
            &&& t.clock_divisor * TICKS_PER_DIVISOR + t.setup + t.strobe + t.hold == budget(
                duration_ns,
            )
        }),
{
}

/// A budget beyond one undivided period moves into the clock divisor, and
/// the remainder is still split within the counts' maxima.
pub proof fn lemma_timing_overflow(duration_ns: u64)
    requires
        budget(duration_ns) > TICKS_PER_DIVISOR,
    ensures
        ({
            let t = timing_spec(duration_ns);
            let b = budget(duration_ns);
            &&& t.clock_divisor == b / (TICKS_PER_DIVISOR as int)
            &&& t.clock_divisor > 0
            &&& t.setup + t.strobe + t.hold == b % (TICKS_PER_DIVISOR as int)
            &&& t.setup <= MAX_SETUP
            &&& t.strobe <= MAX_STROBE
            &&& t.hold <= MAX_HOLD
        }),
{
    lemma_timing_decomposition(duration_ns);
}

/// The write timing that a transfer programs.
pub open spec fn write_settings_of(t: TimingParameters) -> WriteSettings {
    WriteSettings {
        width: TransferWidth::Bit18,
        setup: t.setup,
        strobe: t.strobe,
        hold: t.hold,
        pace: 0,
        dreq: false,
    }
}

/// The DMA pacing that a transfer programs.
pub open spec fn transfer_control() -> Control {
    Control {
        dma_enabled: true,
        external_dreq_mode: false,
        read_panic_threshold: 48,
        write_panic_threshold: 16,
        read_dreq_threshold: 32,
        write_dreq_threshold: 32,
    }
}

/// The transfer information word of the control block: wait for write
/// responses (3), writes paced by DREQ (6), incrementing source (8), and
/// the SMI block as the pacing peripheral (20..16).
pub open spec fn transfer_info() -> u32 {
    let w = write_field(0, field_of(6, 6), 1);
    let w = write_field(w, field_of(8, 8), 1);
    let w = write_field(w, field_of(3, 3), 1);
    write_field(w, field_of(20, 16), DMA_PERMAP_SMI)
}

/// Writes of the control block at `cb_virt` that never change: transfer
/// information, source, and the initial length of `bytes` bytes.
pub open spec fn init_ops(cb_virt: usize, source_bus: u32, bytes: nat) -> Seq<RegOp> {
    seq![
        RegOp::Write { addr: cb_virt.wrapping_add(DMA_CB_TI), value: transfer_info() },
        RegOp::Write { addr: cb_virt.wrapping_add(DMA_CB_SOURCE_AD), value: source_bus },
        RegOp::Write { addr: cb_virt.wrapping_add(DMA_CB_TXFR_LEN), value: bytes as u32 },
    ]
}

/// Writes that copy the first `count` words of `data` to the payload at `virt`.
pub open spec fn data_ops(virt: usize, data: Seq<u32>, count: nat) -> Seq<RegOp> {
    Seq::new(
        count,
        |i: int| RegOp::Write { addr: virt.wrapping_add((4 * i) as usize), value: data[i] },
    )
}

/// The wait until the controller reports no transfer in flight.
pub open spec fn idle_wait(controller: Controller) -> RegOp {
    RegOp::WaitUntil { addr: controller.at(SMI_CS), field: field_of(2, 2), value: 0 }
}

/// Everything a configuration programs, in order, for a transfer of
/// `words` words whose control block is at `cb_virt`.
pub open spec fn configure_ops<D: Device, C: Channel>(
    cb_virt: usize,
    controller: Controller,
    device: D,
    channel: C,
    t: TimingParameters,
    words: nat,
) -> Seq<RegOp> {
    let cs = controller.at(SMI_CS);
    seq![
        RegOp::Write { addr: cb_virt.wrapping_add(DMA_CB_TXFR_LEN), value: (4 * words) as u32 },
        RegOp::Write {
            addr: cb_virt.wrapping_add(DMA_CB_DEST_AD),
            value: controller.spec_regs().bus.wrapping_add(SMI_D) as u32,
        },
        RegOp::Write { addr: device.write_addr(), value: write_settings_of(t).word() },
        RegOp::Modify { addr: controller.at(SMI_A), field: field_of(9, 8), value: device.spec_index() },
        RegOp::Write { addr: cs, value: 0 },
        RegOp::Write { addr: controller.at(SMI_DCS), value: 0 },
        RegOp::Modify { addr: cs, field: field_of(0, 0), value: 0 },
        RegOp::Modify { addr: cs, field: field_of(4, 4), value: 1 },
    ] + clock_divisor_ops(
        controller.spec_clock_regs().virt.wrapping_add(SMI_CLOCK_CTL),
        controller.spec_clock_regs().virt.wrapping_add(SMI_CLOCK_DIV),
        t.clock_divisor as u16,
    ) + seq![
        RegOp::Write { addr: controller.at(SMI_DC), value: transfer_control().word() },
        RegOp::Write { addr: controller.at(SMI_L), value: words as u32 },
        RegOp::Modify { addr: cs, field: field_of(5, 5), value: 1 },
        RegOp::Modify { addr: cs, field: field_of(0, 0), value: 1 },
        RegOp::Modify {
            addr: channel.enable_addr(),
            field: field_of(channel.spec_index() as usize, channel.spec_index() as usize),
            value: 1,
        },
    ]
}

/// What a start does, in order: wait until no transfer is in flight, reset
/// the channel, point it at the control block at bus address `cb_bus`,
/// clear its end and error flags, start it, then start the controller.
pub open spec fn start_ops<C: Channel>(controller: Controller, channel: C, cb_bus: u32) -> Seq<RegOp> {
    let dcs = channel.spec_regs().virt.wrapping_add(DMA_CS);
    seq![
        idle_wait(controller),
        RegOp::Modify { addr: dcs, field: field_of(31, 31), value: 1 },
        RegOp::Write { addr: channel.spec_regs().virt.wrapping_add(DMA_CONBLK_AD), value: cb_bus },
        RegOp::Modify { addr: dcs, field: field_of(1, 1), value: 1 },
        RegOp::Modify { addr: dcs, field: field_of(8, 8), value: 1 },
        RegOp::Modify { addr: dcs, field: field_of(0, 0), value: 1 },
        RegOp::Modify { addr: controller.at(SMI_CS), field: field_of(3, 3), value: 1 },
    ]
}

/// A payload of `size` words in GPU memory, followed by the DMA control
/// block that streams it.
pub struct Transfer {
    gpu_mem: GpuMem,
    size: usize,
}

/// The bytes that a transfer of `size` words takes in GPU memory.
pub open spec fn transfer_bytes(size: nat) -> nat {
    (4 * size + DMA_CONTROL_BLOCK_SIZE) as nat
}

impl Transfer {
    #[verifier::type_invariant]
    spec fn inv(self) -> bool {
        &&& transfer_bytes(self.size as nat) <= self.gpu_mem.spec_size()
        &&& self.gpu_mem.spec_size() <= u32::MAX
    }

    pub closed spec fn spec_gpu_mem(&self) -> GpuMem {
        self.gpu_mem
    }

    pub closed spec fn spec_size(&self) -> nat {
        self.size as nat
    }

    /// The virtual address of the control block.
    pub open spec fn cb_virt(&self) -> usize {
        self.spec_gpu_mem().spec_memmap().virt.wrapping_add((4 * self.spec_size()) as usize)
    }

    /// The bus address of the control block.
    pub open spec fn cb_bus(&self) -> u32 {
        self.spec_gpu_mem().spec_memmap().bus.wrapping_add((4 * self.spec_size()) as usize) as u32
    }

    /// The GPU memory that a transfer of `size` words needs, where that
    /// size can be counted.
    pub fn required_bytes(size: usize) -> (r: Option<usize>)
        ensures
            r == (if transfer_bytes(size as nat) <= usize::MAX {
                Some(transfer_bytes(size as nat) as usize)
            } else {
                None::<usize>
            }),
    {
        if size <= (usize::MAX - DMA_CONTROL_BLOCK_SIZE) / 4 {
            Some(4 * size + DMA_CONTROL_BLOCK_SIZE)
        } else {
            None
        }
    }

    /// A transfer of `size` words in `gpu_mem`, and the writes that set up
    /// its control block.
    pub fn new(gpu_mem: GpuMem, size: usize) -> (r: (Transfer, Vec<RegOp>))
        requires
            transfer_bytes(size as nat) <= gpu_mem.spec_size(),
        ensures
            r.0.spec_gpu_mem() == gpu_mem,
            r.0.spec_size() == size,
            r.1@ == init_ops(
                r.0.cb_virt(),
                gpu_mem.spec_memmap().bus as u32,
                4 * size as nat,
            ),
    {
        let mem_size = gpu_mem.size();
        let bytes = size * 4;
        let memmap = gpu_mem.memmap();
        let cb_virt = memmap.virt.wrapping_add(bytes);

        let mut ti: u32 = 0;
        write_bit_field(&mut ti, bit(6), 1);
        write_bit_field(&mut ti, bit(8), 1);
        write_bit_field(&mut ti, bit(3), 1);
        write_bit_field(&mut ti, bits(20, 16), DMA_PERMAP_SMI);

        let ops = vec![
            RegOp::Write { addr: cb_virt.wrapping_add(DMA_CB_TI), value: ti },
            RegOp::Write { addr: cb_virt.wrapping_add(DMA_CB_SOURCE_AD), value: memmap.bus as u32 },
            RegOp::Write { addr: cb_virt.wrapping_add(DMA_CB_TXFR_LEN), value: bytes as u32 },
        ];
        let t = Transfer { gpu_mem, size };
        proof {
            assert(ops@ =~= init_ops(t.cb_virt(), memmap.bus as u32, 4 * size as nat));
        }
        (t, ops)
    }

    /// The number of words of the payload.
    pub fn size(&self) -> (r: usize)
        ensures
            r == self.spec_size(),
    {
        self.size
    }

    /// The GPU memory that holds the payload and the control block.
    pub fn gpu_mem(&self) -> (r: &GpuMem)
        ensures
            *r == self.spec_gpu_mem(),
    {
        &self.gpu_mem
    }

    /// The writes that copy the first words of `data` into the payload, as
    /// many as both hold.
    pub fn set_data(&self, data: &[u32]) -> (r: Vec<RegOp>)
        ensures
            r@ == data_ops(
                self.spec_gpu_mem().spec_memmap().virt,
                data@,
                min(data@.len() as int, self.spec_size() as int) as nat,
            ),
    {
        proof {
            use_type_invariant(self);
        }
        payload_writes(self.gpu_mem.memmap().virt, data, self.size)
    }

    /// Binds the transfer to an SMI controller and device and a DMA channel,
    /// for cycles of `duration_ns` nanoseconds and `size` words at most, and
    /// gives the writes that program them all.
    pub fn configure<'b, D: Device, C: Channel>(
        &'b mut self,
        smi_controller: &'b mut Controller,
        smi_device: &'b mut D,
        dma_channel: &'b mut C,
        duration_ns: u64,
        size: usize,
    ) -> (r: (ConfiguredTransfer<'b, D, C>, Vec<RegOp>))
        requires
            timing_spec(duration_ns).clock_divisor <= SMI_CLOCK_DIVISOR_MAX,
        ensures
            ({
                let words = min(size as int, old(self).spec_size() as int) as nat;
                &&& r.1@ == configure_ops(
                    old(self).cb_virt(),
                    *old(smi_controller),
                    *old(smi_device),
                    *old(dma_channel),
                    timing_spec(duration_ns),
                    words,
                )
                &&& r.1@[0] == (RegOp::Write {
                    addr: old(self).cb_virt().wrapping_add(DMA_CB_TXFR_LEN),
                    value: (4 * words) as u32,
                })
                &&& r.0.spec_transfer() == *old(self)
                &&& r.0.spec_controller() == *old(smi_controller)
                &&& r.0.spec_channel() == *old(dma_channel)
            }),
    {
        proof {
            use_type_invariant(&*self);
        }
        let words = if size < self.size {
            size
        } else {
            self.size
        };
        let memmap = self.gpu_mem.memmap();
        let cb_virt = memmap.virt.wrapping_add(self.size * 4);
        let t = TimingParameters::from_duration(duration_ns);
        let settings = WriteSettings {
            width: TransferWidth::Bit18,
            setup: t.setup,
            strobe: t.strobe,
            hold: t.hold,
            pace: 0,
            dreq: false,
        };
        let control = Control {
            dma_enabled: true,
            external_dreq_mode: false,
            read_panic_threshold: 48,
            write_panic_threshold: 16,
            read_dreq_threshold: 32,
            write_dreq_threshold: 32,
        };
        proof {
            lemma_timing_decomposition(duration_ns);
        }

        let mut ops: Vec<RegOp> = Vec::new();
        ops.push(
            RegOp::Write { addr: cb_virt.wrapping_add(DMA_CB_TXFR_LEN), value: (words * 4) as u32 },
        );
        ops.push(
            RegOp::Write {
                addr: cb_virt.wrapping_add(DMA_CB_DEST_AD),
                value: smi_controller.data_bus_addr() as u32,
            },
        );
        ops.push(smi_device.set_write_settings(&settings));
        ops.push(smi_controller.select(&*smi_device));
        ops.push(smi_controller.zero());
        ops.push(smi_controller.zero_direct());
        ops.push(smi_controller.disable());
        ops.push(smi_controller.clear());
        let mut clock = smi_controller.set_clock_divisor(t.clock_divisor as u16);
        ops.append(&mut clock);
        ops.push(smi_controller.set_control(&control));
        ops.push(smi_controller.set_length(words as u32));
        ops.push(smi_controller.set_dir(TransferDir::Write));
        ops.push(smi_controller.enable());
        ops.push(dma_channel.enable());

        proof {
            assert(ops@ =~= configure_ops(
                cb_virt,
                *smi_controller,
                *smi_device,
                *dma_channel,
                t,
                words as nat,
            ));
        }
        let configured = ConfiguredTransfer {
            transfer: &*self,
            smi_controller,
            smi_device,
            dma_channel,
        };
        (configured, ops)
    }
}

/// The writes that copy the first `min(data.len(), capacity)` words of
/// `data` to the payload at `virt`.
fn payload_writes(virt: usize, data: &[u32], capacity: usize) -> (r: Vec<RegOp>)
    requires
        4 * capacity <= u32::MAX,
    ensures
        r@ == data_ops(virt, data@, min(data@.len() as int, capacity as int) as nat),
{
    let count = if data.len() < capacity {
        data.len()
    } else {
        capacity
    };
    let mut ops: Vec<RegOp> = Vec::new();
    let mut i: usize = 0;
    while i < count
        invariant
            count == min(data@.len() as int, capacity as int),
            4 * capacity <= u32::MAX,
            i <= count,
            ops@ =~= data_ops(virt, data@, i as nat),
        decreases count - i,
    {
        ops.push(RegOp::Write { addr: virt.wrapping_add(4 * i), value: data[i] });
        i = i + 1;
    }
    ops
}

/// A transfer bound to the hardware that streams it. While it lives, the
/// transfer, the controller, the device and the channel are borrowed.
pub struct ConfiguredTransfer<'a, D: Device, C: Channel> {
    transfer: &'a Transfer,
    smi_controller: &'a mut Controller,
    smi_device: &'a mut D,
    dma_channel: &'a mut C,
}

impl<'a, D: Device, C: Channel> ConfiguredTransfer<'a, D, C> {
    pub closed spec fn spec_transfer(&self) -> Transfer {
        *self.transfer
    }

    pub closed spec fn spec_controller(&self) -> Controller {
        *self.smi_controller
    }

    pub closed spec fn spec_channel(&self) -> C {
        *self.dma_channel
    }

    /// The number of words of the payload.
    pub fn size(&self) -> (r: usize)
        ensures
            r == self.spec_transfer().spec_size(),
    {
        self.transfer.size()
    }

    /// The writes that copy the first words of `data` into the payload, as
    /// many as both hold. Only to be performed while no transfer is in flight.
    pub fn set_data(&self, data: &[u32]) -> (r: Vec<RegOp>)
        ensures
            r@ == data_ops(
                self.spec_transfer().spec_gpu_mem().spec_memmap().virt,
                data@,
                min(data@.len() as int, self.spec_transfer().spec_size() as int) as nat,
            ),
    {
        self.transfer.set_data(data)
    }

    /// Starts the transfer once no earlier one is in flight.
    pub fn start(&self) -> (r: Vec<RegOp>)
        ensures
            r@ == start_ops(
                self.spec_controller(),
                self.spec_channel(),
                self.spec_transfer().cb_bus(),
            ),
    {
        let transfer = self.transfer;
        proof {
            use_type_invariant(transfer);
        }
        let cb_bus = transfer.gpu_mem.memmap().bus.wrapping_add(transfer.size * 4) as u32;
        let ops = vec![
            self.until_idle(),
            self.dma_channel.reset(),
            self.dma_channel.set_control_block_address(cb_bus),
            self.dma_channel.clear_end(),
            self.dma_channel.clear_error(),
            self.dma_channel.start(),
            self.smi_controller.start(),
        ];
        proof {
            assert(ops@ =~= start_ops(*self.smi_controller, *self.dma_channel, cb_bus));
        }
        ops
    }

    /// The wait to perform before the binding may end, so that the payload
    /// is never changed or freed while the hardware reads it.
    pub fn until_idle(&self) -> (r: RegOp)
        ensures
            r == idle_wait(self.spec_controller()),
    {
        RegOp::WaitUntil { addr: self.smi_controller.cs_addr(), field: bit(2), value: 0 }
    }
}

/// A start, and the end of a binding, hold back while the controller's
/// active flag (bit 2 of its status word `cs`) is set, and go on once it is
/// clear; nothing of a start comes before that wait.
pub proof fn lemma_start_waits_for_idle<C: Channel>(
    controller: Controller,
    channel: C,
    cb_bus: u32,
    cs: u32,
)
    ensures
        start_ops(controller, channel, cb_bus)[0] == idle_wait(controller),
        idle_wait(controller).step_spec(cs) == Step::Poll <==> (cs >> 2u32) & 1 == 1,
        idle_wait(controller).step_spec(cs) == Step::Done <==> (cs >> 2u32) & 1 == 0,
{
    lemma_bit_mask(2);
    assert(((cs & (1u32 << 2u32)) >> 2u32) == (cs >> 2u32) & 1) by (bit_vector);
    assert((cs >> 2u32) & 1 == 0 || (cs >> 2u32) & 1 == 1) by (bit_vector);
    assert(read_field(cs, field_of(2, 2)) == (cs >> 2u32) & 1);
}

} // verus!
