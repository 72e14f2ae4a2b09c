use vstd::prelude::*;

use crate::field::{bit, bits, field_of, read_bit_field, read_field, write_bit_field, write_field};
use crate::mem::MemMap;
use crate::platform::Platform;
use crate::register::RegOp;

verus! {

/// Offset of the SMI register block from the peripheral base.
pub const SMI_OFFSET: usize = 0x0060_0000;

/// Control and status.
pub const SMI_CS: usize = 0x00;
/// Transfer length, in words.
pub const SMI_L: usize = 0x04;
/// Address and device select.
pub const SMI_A: usize = 0x08;
/// Data.
pub const SMI_D: usize = 0x0C;
/// Read and write timing banks of the four devices.
pub const SMI_DSR0: usize = 0x10;
pub const SMI_DSW0: usize = 0x14;
/// Distance between the timing banks of two neighbouring devices.
pub const SMI_DEVICE_STRIDE: usize = 0x08;
/// DMA control.
pub const SMI_DC: usize = 0x30;
/// Direct-access control and status.
pub const SMI_DCS: usize = 0x34;

/// Offset of the clock manager block from the peripheral base.
pub const SMI_CLOCK_OFFSET: usize = 0x0010_1000;
/// The SMI clock's control register, inside the clock manager block.
pub const SMI_CLOCK_CTL: usize = 0xb0;
/// The SMI clock's divisor register, inside the clock manager block.
pub const SMI_CLOCK_DIV: usize = 0xb4;
/// Every write to a clock register carries this in bits 31..24.
pub const SMI_CLOCK_PASSWD: u32 = 0x5a;
/// The clock source selected when the clock is restarted (PLLD).
pub const SMI_CLOCK_SOURCE: u32 = 6;
/// The largest value of the 12-bit integer divisor field.
pub const SMI_CLOCK_DIVISOR_MAX: u16 = 0xFFF;

/// Widths of one transfer on the SMI bus.
#[derive(Clone, Copy, Debug, PartialEq, Eq)]
pub enum TransferWidth {
    Bit8,
    Bit9,
    Bit16,
    Bit18,
}

/// Direction of a transfer.
#[derive(Clone, Copy, Debug, PartialEq, Eq)]
pub enum TransferDir {
    Write,
    Read,
}

/// Sources that can drive a clock of the clock manager.
#[derive(Clone, Copy, Debug, PartialEq, Eq)]
pub enum ClockSource {
    Gnd,
    Oscillator,
    PllA,
    PllC,
    PllD,
    HdmiAuxiliary,
}

/// DMA pacing of the controller.
#[derive(Clone, Copy, Debug)]
pub struct Control {
    pub dma_enabled: bool,
    pub external_dreq_mode: bool,
    pub read_panic_threshold: u8,
    pub write_panic_threshold: u8,
    pub read_dreq_threshold: u8,
    pub write_dreq_threshold: u8,
}

/// Read timing of a device, in clock ticks.
#[derive(Clone, Copy, Debug)]
pub struct ReadSettings {
    pub width: TransferWidth,
    pub setup: u8,
    pub strobe: u8,
    pub hold: u8,
    pub pace: u8,
    pub dreq: bool,
}

/// Write timing of a device, in clock ticks.
#[derive(Clone, Copy, Debug)]
pub struct WriteSettings {
    pub width: TransferWidth,
    pub setup: u8,
    pub strobe: u8,
    pub hold: u8,
    pub pace: u8,
    pub dreq: bool,
}

/// A flag as the value of a one-bit field.
pub open spec fn flag(b: bool) -> u32 {
    if b {
        1
    } else {
        0
    }
}

fn flag_of(b: bool) -> (r: u32)
    ensures
        r == flag(b),
{
    if b {
        1
    } else {
        0
    }
}

/// The code of a transfer width in a timing register.
pub open spec fn width_code(w: TransferWidth) -> u32 {
    match w {
        TransferWidth::Bit8 => 0,
        TransferWidth::Bit16 => 1,
        TransferWidth::Bit18 => 2,
        TransferWidth::Bit9 => 3,
    }
}

fn width_code_of(w: TransferWidth) -> (r: u32)
    ensures
        r == width_code(w),
{
    match w {
        TransferWidth::Bit8 => 0,
        TransferWidth::Bit16 => 1,
        TransferWidth::Bit18 => 2,
        TransferWidth::Bit9 => 3,
    }
}

impl Control {
    /// Each threshold fits its 6-bit field.
    pub open spec fn wf(self) -> bool {
        &&& self.read_panic_threshold < 64
        &&& self.write_panic_threshold < 64
        &&& self.read_dreq_threshold < 64
        &&& self.write_dreq_threshold < 64
    }

    /// The DMA control word: DMAEN (28), DMAP (24), PANICR (23..18),
    /// PANICW (17..12), REQR (11..6), REQW (5..0).
    pub open spec fn word(self) -> u32 {
        let w = write_field(0, field_of(28, 28), flag(self.dma_enabled));
        let w = write_field(w, field_of(24, 24), flag(self.external_dreq_mode));
        let w = write_field(w, field_of(23, 18), self.read_panic_threshold as u32);
        let w = write_field(w, field_of(17, 12), self.write_panic_threshold as u32);
        let w = write_field(w, field_of(11, 6), self.read_dreq_threshold as u32);
        write_field(w, field_of(5, 0), self.write_dreq_threshold as u32)
    }
}

impl ReadSettings {
    /// Each count fits its field.
    pub open spec fn wf(self) -> bool {
        self.setup < 64 && self.strobe < 128 && self.hold < 64 && self.pace < 128
    }

    /// The read timing word: RWIDTH (31..30), RSETUP (29..24), RSTROBE (6..0),
    /// RHOLD (21..16), RPACE (14..8), RDREQ (7).
    pub open spec fn word(self) -> u32 {
        timing_word(
            width_code(self.width),
            self.setup,
            self.strobe,
            self.hold,
            self.pace,
            self.dreq,
        )
    }
}

impl WriteSettings {
    /// Each count fits its field.
    pub open spec fn wf(self) -> bool {
        self.setup < 64 && self.strobe < 128 && self.hold < 64 && self.pace < 128
    }

    /// The write timing word: WWIDTH (31..30), WSETUP (29..24), WSTROBE (6..0),
    /// WHOLD (21..16), WPACE (14..8), WDREQ (7).
    pub open spec fn word(self) -> u32 {
        timing_word(
            width_code(self.width),
            self.setup,
            self.strobe,
            self.hold,
            self.pace,
            self.dreq,
        )
    }
}

/// Read and write timing registers share one layout.
pub open spec fn timing_word(width: u32, setup: u8, strobe: u8, hold: u8, pace: u8, dreq: bool) -> u32 {
    let w = write_field(0, field_of(31, 30), width);
    let w = write_field(w, field_of(29, 24), setup as u32);
    let w = write_field(w, field_of(6, 0), strobe as u32);
    let w = write_field(w, field_of(21, 16), hold as u32);
    let w = write_field(w, field_of(14, 8), pace as u32);
    write_field(w, field_of(7, 7), flag(dreq))
}

fn pack_timing(width: u32, setup: u8, strobe: u8, hold: u8, pace: u8, dreq: bool) -> (r: u32)
    ensures
        r == timing_word(width, setup, strobe, hold, pace, dreq),
{
    let mut w: u32 = 0;
    write_bit_field(&mut w, bits(31, 30), width);
    write_bit_field(&mut w, bits(29, 24), setup as u32);
    write_bit_field(&mut w, bits(6, 0), strobe as u32);
    write_bit_field(&mut w, bits(21, 16), hold as u32);
    write_bit_field(&mut w, bits(14, 8), pace as u32);
    write_bit_field(&mut w, bit(7), flag_of(dreq));
    w
}

/// The word of the clock control register with the password and nothing else.
pub open spec fn clock_ctl_stop() -> u32 {
    write_field(0, field_of(31, 24), SMI_CLOCK_PASSWD)
}

/// The clock control word that kills the clock.
pub open spec fn clock_ctl_kill() -> u32 {
    write_field(clock_ctl_stop(), field_of(5, 5), 1)
}

/// The clock control word that enables the clock from [`SMI_CLOCK_SOURCE`].
pub open spec fn clock_ctl_enable() -> u32 {
    write_field(write_field(clock_ctl_stop(), field_of(3, 0), SMI_CLOCK_SOURCE), field_of(4, 4), 1)
}

/// The clock divisor word: password, and the integer divisor in bits 23..12.
pub open spec fn clock_div_word(divisor: u16) -> u32 {
    write_field(write_field(0, field_of(31, 24), SMI_CLOCK_PASSWD), field_of(23, 12), divisor as u32)
}

/// The safe sequence that reprograms the clock: stop it, kill it, wait until
/// it is no longer busy, set the divisor, enable it, wait until it runs.
pub open spec fn clock_divisor_ops(ctl: usize, div: usize, divisor: u16) -> Seq<RegOp> {
    seq![
        RegOp::Write { addr: ctl, value: clock_ctl_stop() },
        RegOp::Write { addr: ctl, value: clock_ctl_kill() },
        RegOp::WaitUntil { addr: ctl, field: field_of(7, 7), value: 0 },
        RegOp::Write { addr: div, value: clock_div_word(divisor) },
        RegOp::Write { addr: ctl, value: clock_ctl_enable() },
        RegOp::WaitUntil { addr: ctl, field: field_of(7, 7), value: 1 },
    ]
}

/// The SMI register block and its clock, once mapped.
pub struct Peripheral {
    pub controller: Controller,
    pub devices: Devices,
}

/// The global registers of the SMI block and its clock.
#[derive(Clone, Copy, Debug)]
pub struct Controller {
    regs: MemMap,
    clock_regs: MemMap,
}

/// The timing banks of the four devices.
pub struct Devices {
    pub device0: DeviceHandle,
    pub device1: DeviceHandle,
    pub device2: DeviceHandle,
    pub device3: DeviceHandle,
}

/// One of the four timing banks that may govern a transfer.
pub trait Device {
    /// The device's number, 0 to 3.
    spec fn spec_index(&self) -> u32;

    /// The virtual address of the device's read timing register.
    spec fn read_addr(&self) -> usize;

    /// The virtual address of the device's write timing register.
    spec fn write_addr(&self) -> usize;

    fn index(&self) -> (r: u32)
        ensures
            r == self.spec_index(),
            r < 4,
    ;

    /// Programs the read timing register.
    fn set_read_settings(&self, settings: &ReadSettings) -> (r: RegOp)
        requires
            settings.wf(),
        ensures
            r == (RegOp::Write { addr: self.read_addr(), value: settings.word() }),
    ;

    /// Programs the write timing register.
    fn set_write_settings(&self, settings: &WriteSettings) -> (r: RegOp)
        requires
            settings.wf(),
        ensures
            r == (RegOp::Write { addr: self.write_addr(), value: settings.word() }),
    ;
}

/// Device `index` of the SMI block mapped at `virt`: its timing registers
/// lie one stride apart for each device.
pub open spec fn bank_of<D: Device>(d: D, virt: usize, index: u32) -> bool {
    &&& d.spec_index() == index
    &&& d.read_addr() == virt.wrapping_add((SMI_DSR0 + index * SMI_DEVICE_STRIDE) as usize)
    &&& d.write_addr() == virt.wrapping_add((SMI_DSW0 + index * SMI_DEVICE_STRIDE) as usize)
}

/// The timing bank of device `index`.
#[derive(Clone, Copy, Debug)]
pub struct DeviceHandle {
    index: u32,
    dsr_virt: usize,
    dsw_virt: usize,
}

impl DeviceHandle {
    #[verifier::type_invariant]
    spec fn inv(self) -> bool {
        self.index < 4
    }

    fn new(regs: &MemMap, index: u32) -> (r: DeviceHandle)
        requires
            index < 4,
        ensures
            r.index == index,
            r.dsr_virt == regs.virt.wrapping_add((SMI_DSR0 + index * SMI_DEVICE_STRIDE) as usize),
            r.dsw_virt == regs.virt.wrapping_add((SMI_DSW0 + index * SMI_DEVICE_STRIDE) as usize),
    {
        let bank = index as usize * SMI_DEVICE_STRIDE;
        DeviceHandle {
            index,
            dsr_virt: regs.virt.wrapping_add(SMI_DSR0 + bank),
            dsw_virt: regs.virt.wrapping_add(SMI_DSW0 + bank),
        }
    }
}

impl Device for DeviceHandle {
    closed spec fn spec_index(&self) -> u32 {
        self.index
    }

    closed spec fn read_addr(&self) -> usize {
        self.dsr_virt
    }

    closed spec fn write_addr(&self) -> usize {
        self.dsw_virt
    }

    fn index(&self) -> (r: u32) {
        proof {
            use_type_invariant(self);
        }
        self.index
    }

    fn set_read_settings(&self, settings: &ReadSettings) -> (r: RegOp) {
        let value = pack_timing(
            width_code_of(settings.width),
            settings.setup,
            settings.strobe,
            settings.hold,
            settings.pace,
            settings.dreq,
        );
        RegOp::Write { addr: self.dsr_virt, value }
    }

    fn set_write_settings(&self, settings: &WriteSettings) -> (r: RegOp) {
        let value = pack_timing(
            width_code_of(settings.width),
            settings.setup,
            settings.strobe,
            settings.hold,
            settings.pace,
            settings.dreq,
        );
        RegOp::Write { addr: self.dsw_virt, value }
    }
}

impl Peripheral {
    /// The physical address of the SMI register block.
    pub fn phys(base: &Platform) -> (r: usize)
        ensures
            r == base.phys.wrapping_add(SMI_OFFSET),
    {
        base.phys.wrapping_add(SMI_OFFSET)
    }

    /// The physical address of the clock manager block.
    pub fn clock_phys(base: &Platform) -> (r: usize)
        ensures
            r == base.phys.wrapping_add(SMI_CLOCK_OFFSET),
    {
        base.phys.wrapping_add(SMI_CLOCK_OFFSET)
    }

    /// The handles of an SMI block whose registers are mapped at `virt` and
    /// whose clock manager is mapped at `clock_virt`.
    pub fn new(base: &Platform, virt: usize, clock_virt: usize) -> (r: Peripheral)
        ensures
            r.controller.spec_regs() == (MemMap {
                bus: base.bus.wrapping_add(SMI_OFFSET),
                phys: base.phys.wrapping_add(SMI_OFFSET),
                virt,
            }),
            r.controller.spec_clock_regs() == (MemMap {
                bus: base.bus.wrapping_add(SMI_CLOCK_OFFSET),
                phys: base.phys.wrapping_add(SMI_CLOCK_OFFSET),
                virt: clock_virt,
            }),
            bank_of(r.devices.device0, virt, 0),
            bank_of(r.devices.device1, virt, 1),
            bank_of(r.devices.device2, virt, 2),
            bank_of(r.devices.device3, virt, 3),
    {
        let regs = MemMap {
            bus: base.bus.wrapping_add(SMI_OFFSET),
            phys: base.phys.wrapping_add(SMI_OFFSET),
            virt,
        };
        let clock_regs = MemMap {
            bus: base.bus.wrapping_add(SMI_CLOCK_OFFSET),
            phys: base.phys.wrapping_add(SMI_CLOCK_OFFSET),
            virt: clock_virt,
        };
        Peripheral {
            controller: Controller { regs, clock_regs },
            devices: Devices {
                device0: DeviceHandle::new(&regs, 0),
                device1: DeviceHandle::new(&regs, 1),
                device2: DeviceHandle::new(&regs, 2),
                device3: DeviceHandle::new(&regs, 3),
            },
        }
    }
}

impl Controller {
    pub closed spec fn spec_regs(&self) -> MemMap {
        self.regs
    }

    pub closed spec fn spec_clock_regs(&self) -> MemMap {
        self.clock_regs
    }

    /// The virtual address of the register at `offset` of the SMI block.
    pub open spec fn at(&self, offset: usize) -> usize {
        self.spec_regs().virt.wrapping_add(offset)
    }

    /// The virtual address of the control and status register.
    pub fn cs_addr(&self) -> (r: usize)
        ensures
            r == self.at(SMI_CS),
    {
        self.regs.virt.wrapping_add(SMI_CS)
    }

    /// The bus address of the data register, where DMA writes go.
    pub fn data_bus_addr(&self) -> (r: usize)
        ensures
            r == self.spec_regs().bus.wrapping_add(SMI_D),
    {
        self.regs.bus.wrapping_add(SMI_D)
    }

    /// Mapping of the SMI register block.
    pub fn memmap(&self) -> (r: MemMap)
        ensures
            r == self.spec_regs(),
    {
        self.regs
    }

    /// Mapping of the clock manager block.
    pub fn clock_memmap(&self) -> (r: MemMap)
        ensures
            r == self.spec_clock_regs(),
    {
        self.clock_regs
    }

    /// Lets `device`'s timing govern the next transfer.
    pub fn select<D: Device>(&self, device: &D) -> (r: RegOp)
        ensures
            r == (RegOp::Modify {
                addr: self.at(SMI_A),
                field: field_of(9, 8),
                value: device.spec_index(),
            }),
    {
        RegOp::Modify { addr: self.regs.virt.wrapping_add(SMI_A), field: bits(9, 8), value: device.index() }
    }

    /// Reprograms the clock to run at the source rate divided by `divisor`.
    pub fn set_clock_divisor(&self, divisor: u16) -> (r: Vec<RegOp>)
        requires
            divisor <= SMI_CLOCK_DIVISOR_MAX,
        ensures
            r@ == clock_divisor_ops(
                self.spec_clock_regs().virt.wrapping_add(SMI_CLOCK_CTL),
                self.spec_clock_regs().virt.wrapping_add(SMI_CLOCK_DIV),
                divisor,
            ),
    {
        let ctl_addr = self.clock_regs.virt.wrapping_add(SMI_CLOCK_CTL);
        let div_addr = self.clock_regs.virt.wrapping_add(SMI_CLOCK_DIV);

        let mut stop: u32 = 0;
        write_bit_field(&mut stop, bits(31, 24), SMI_CLOCK_PASSWD);

        let mut kill = stop;
        write_bit_field(&mut kill, bit(5), 1);

        let mut div: u32 = 0;
        write_bit_field(&mut div, bits(31, 24), SMI_CLOCK_PASSWD);
        write_bit_field(&mut div, bits(23, 12), divisor as u32);

        let mut enable = stop;
        write_bit_field(&mut enable, bits(3, 0), SMI_CLOCK_SOURCE);
        write_bit_field(&mut enable, bit(4), 1);

        let ops = vec![
            RegOp::Write { addr: ctl_addr, value: stop },
            RegOp::Write { addr: ctl_addr, value: kill },
            RegOp::WaitUntil { addr: ctl_addr, field: bit(7), value: 0 },
            RegOp::Write { addr: div_addr, value: div },
            RegOp::Write { addr: ctl_addr, value: enable },
            RegOp::WaitUntil { addr: ctl_addr, field: bit(7), value: 1 },
        ];
        proof {
            assert(ops@ =~= clock_divisor_ops(ctl_addr, div_addr, divisor));
        }
        ops
    }

    /// Sets the direction of the next transfer.
    pub fn set_dir(&self, dir: TransferDir) -> (r: RegOp)
        ensures
            r == (RegOp::Modify {
                addr: self.at(SMI_CS),
                field: field_of(5, 5),
                value: if dir == TransferDir::Write { 1 } else { 0 },
            }),
    {
        let value: u32 = match dir {
            TransferDir::Write => 1,
            TransferDir::Read => 0,
        };
        RegOp::Modify { addr: self.regs.virt.wrapping_add(SMI_CS), field: bit(5), value }
    }

    /// Sets the enable bit.
    pub fn enable(&self) -> (r: RegOp)
        ensures
            r == (RegOp::Modify { addr: self.at(SMI_CS), field: field_of(0, 0), value: 1 }),
    {
        RegOp::Modify { addr: self.regs.virt.wrapping_add(SMI_CS), field: bit(0), value: 1 }
    }

    /// Clears the enable bit.
    pub fn disable(&self) -> (r: RegOp)
        ensures
            r == (RegOp::Modify { addr: self.at(SMI_CS), field: field_of(0, 0), value: 0 }),
    {
        RegOp::Modify { addr: self.regs.virt.wrapping_add(SMI_CS), field: bit(0), value: 0 }
    }

    /// Whether the control and status word `cs` reports a transfer in flight.
    pub fn active(&self, cs: u32) -> (r: bool)
        ensures
            r == (read_field(cs, field_of(2, 2)) == 1),
    {
        read_bit_field(cs, bit(2)) == 1
    }

    /// Sets the start bit: the transfer begins and this does not wait.
    pub fn start(&self) -> (r: RegOp)
        ensures
            r == (RegOp::Modify { addr: self.at(SMI_CS), field: field_of(3, 3), value: 1 }),
    {
        RegOp::Modify { addr: self.regs.virt.wrapping_add(SMI_CS), field: bit(3), value: 1 }
    }

    /// Sets the clear bit, which empties the FIFOs.
    pub fn clear(&self) -> (r: RegOp)
        ensures
            r == (RegOp::Modify { addr: self.at(SMI_CS), field: field_of(4, 4), value: 1 }),
    {
        RegOp::Modify { addr: self.regs.virt.wrapping_add(SMI_CS), field: bit(4), value: 1 }
    }

    /// Blanks the control and status register.
    pub fn zero(&self) -> (r: RegOp)
        ensures
            r == (RegOp::Write { addr: self.at(SMI_CS), value: 0 }),
    {
        RegOp::Write { addr: self.regs.virt.wrapping_add(SMI_CS), value: 0 }
    }

    /// Blanks the direct-access control and status register.
    pub fn zero_direct(&self) -> (r: RegOp)
        ensures
            r == (RegOp::Write { addr: self.at(SMI_DCS), value: 0 }),
    {
        RegOp::Write { addr: self.regs.virt.wrapping_add(SMI_DCS), value: 0 }
    }

    /// Programs the DMA pacing thresholds.
    pub fn set_control(&self, control: &Control) -> (r: RegOp)
        requires
            control.wf(),
        ensures
            r == (RegOp::Write { addr: self.at(SMI_DC), value: control.word() }),
    {
        let mut dc: u32 = 0;
        write_bit_field(&mut dc, bit(28), flag_of(control.dma_enabled));
        write_bit_field(&mut dc, bit(24), flag_of(control.external_dreq_mode));
        write_bit_field(&mut dc, bits(23, 18), control.read_panic_threshold as u32);
        write_bit_field(&mut dc, bits(17, 12), control.write_panic_threshold as u32);
        write_bit_field(&mut dc, bits(11, 6), control.read_dreq_threshold as u32);
        write_bit_field(&mut dc, bits(5, 0), control.write_dreq_threshold as u32);
        RegOp::Write { addr: self.regs.virt.wrapping_add(SMI_DC), value: dc }
    }

    /// Sets the length of the next transfer, in words.
    pub fn set_length(&self, length: u32) -> (r: RegOp)
        ensures
            r == (RegOp::Write { addr: self.at(SMI_L), value: length }),
    {
        RegOp::Write { addr: self.regs.virt.wrapping_add(SMI_L), value: length }
    }
}

} // verus!
