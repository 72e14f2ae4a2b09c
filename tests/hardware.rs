use std::collections::HashMap;

use timed_transfer::batch::{ConfiguredTransfer, Transfer};
use timed_transfer::dma::{self, Channel};
use timed_transfer::gpio::{self, Mode, Pin};
use timed_transfer::gpu::GpuMem;
use timed_transfer::platform::Platform;
use timed_transfer::register::{RegOp, Step};
use timed_transfer::mem::MemMap;
use timed_transfer::smi::{self, Control, Device, ReadSettings, TransferDir, TransferWidth, WriteSettings};

const DMA_VIRT: usize = 0x1000_0000;
const SMI_VIRT: usize = 0x2000_0000;
const CLOCK_VIRT: usize = 0x3000_0000;
const GPIO_VIRT: usize = 0x4000_0000;
const MEM_VIRT: usize = 0x5000_0000;
const MEM_BUS: u32 = 0xDE00_0000;

/// Registers in memory. One status bit (`watch_bit` of `watch`) is driven
/// like hardware: for `pending` reads after a store it shows the opposite of
/// where it settles, and it settles on the enable bit (4) of the stored word
/// when `follows_enable`, else on clear.
struct Regs {
    words: HashMap<usize, u32>,
    watch: usize,
    watch_bit: u32,
    follows_enable: bool,
    lag: usize,
    pending: usize,
    log: Vec<(usize, u32)>,
    polls: usize,
}

impl Regs {
    fn new() -> Regs {
        Regs {
            words: HashMap::new(),
            watch: 0,
            watch_bit: 0,
            follows_enable: false,
            lag: 0,
            pending: 0,
            log: Vec::new(),
            polls: 0,
        }
    }

    fn watching(addr: usize, bit: u32, follows_enable: bool, lag: usize, pending: usize) -> Regs {
        let mut r = Regs::new();
        r.watch = addr;
        r.watch_bit = bit;
        r.follows_enable = follows_enable;
        r.lag = lag;
        r.pending = pending;
        r
    }

    fn read(&mut self, addr: usize) -> u32 {
        let w = *self.words.get(&addr).unwrap_or(&0);
        if addr != self.watch {
            return w;
        }
        let settled = self.follows_enable && (w & 0x10) != 0;
        let shown = if self.pending > 0 {
            self.pending -= 1;
            !settled
        } else {
            settled
        };
        if shown { w | self.watch_bit } else { w & !self.watch_bit }
    }

    fn run(&mut self, ops: &[RegOp]) {
        for op in ops {
            loop {
                let current = if op.reads() { self.read(op.addr()) } else { 0 };
                match op.step(current) {
                    Step::Store(v) => {
                        self.words.insert(op.addr(), v);
                        self.log.push((op.addr(), v));
                        if op.addr() == self.watch {
                            self.pending = self.lag;
                        }
                        break;
                    }
                    Step::Done => break,
                    Step::Poll => self.polls += 1,
                }
            }
        }
    }
}

fn board() -> Platform {
    Platform::raspberry_pi_4()
}

fn gpu_mem(bytes: usize) -> GpuMem {
    let a = GpuMem::allocate(bytes);
    let mut reply = a.request();
    reply[5] = 9;
    let l = a.allocated(&reply).unwrap();
    let mut reply = l.request();
    reply[5] = MEM_BUS;
    l.locked(&reply).unwrap().mapped(MEM_VIRT)
}

#[test]
fn channel_enable_sets_only_its_bit() {
    let p = dma::Peripheral::new(&board(), DMA_VIRT);
    let ch = p.channels.channel5;
    assert_eq!(ch.index(), 5);
    let mut regs = Regs::new();
    regs.words.insert(DMA_VIRT + 0xFF0, 0b1000_0000_0001);
    regs.run(&[ch.enable()]);
    assert_eq!(regs.words[&(DMA_VIRT + 0xFF0)], 0b1000_0010_0001);
    regs.run(&[ch.disable()]);
    assert_eq!(regs.words[&(DMA_VIRT + 0xFF0)], 0b1000_0000_0001);
    regs.run(&[p.channels.channel14.enable(), p.channels.channel0.disable()]);
    assert_eq!(regs.words[&(DMA_VIRT + 0xFF0)], 0b0100_1000_0000_0000);
}

#[test]
fn channel_registers() {
    let p = dma::Peripheral::new(&board(), DMA_VIRT);
    let ch = p.channels.channel3;
    let mut regs = Regs::new();
    regs.words.insert(DMA_VIRT + 0x300, 0x0000_0010);
    regs.run(&[ch.set_control_block_address(0xC000_1000), ch.reset(), ch.clear_end(), ch.clear_error(), ch.start()]);
    assert_eq!(regs.words[&(DMA_VIRT + 0x304)], 0xC000_1000);
    assert_eq!(regs.words[&(DMA_VIRT + 0x300)], 0x8000_0113);
    assert_eq!(dma::Peripheral::phys(&board()), 0xFE00_7000);
}

#[test]
fn smi_clock_divisor_sequence() {
    let p = smi::Peripheral::new(&board(), SMI_VIRT, CLOCK_VIRT);
    let ops = p.controller.set_clock_divisor(5);
    let mut regs = Regs::watching(CLOCK_VIRT + 0xb0, 0x80, true, 3, 0);
    regs.run(&ops);
    assert_eq!(
        regs.log,
        vec![
            (CLOCK_VIRT + 0xb0, 0x5a00_0000),
            (CLOCK_VIRT + 0xb0, 0x5a00_0020),
            (CLOCK_VIRT + 0xb4, 0x5a00_5000),
            (CLOCK_VIRT + 0xb0, 0x5a00_0016),
        ]
    );
    assert_eq!(regs.polls, 6);
    assert!(matches!(ops[5], RegOp::WaitUntil { value: 1, .. }));
}

#[test]
fn smi_control_and_settings_words() {
    let p = smi::Peripheral::new(&board(), SMI_VIRT, CLOCK_VIRT);
    let c = p.controller;
    let control = Control {
        dma_enabled: true,
        external_dreq_mode: false,
        read_panic_threshold: 48,
        write_panic_threshold: 16,
        read_dreq_threshold: 32,
        write_dreq_threshold: 32,
    };
    let settings = WriteSettings { width: TransferWidth::Bit18, setup: 63, strobe: 127, hold: 6, pace: 0, dreq: false };
    let mut regs = Regs::new();
    regs.run(&[c.set_control(&control), p.devices.device2.set_write_settings(&settings), c.set_length(77)]);
    assert_eq!(regs.words[&(SMI_VIRT + 0x30)], 0x10C1_0820);
    assert_eq!(regs.words[&(SMI_VIRT + 0x24)], 0xBF06_007F);
    assert_eq!(regs.words[&(SMI_VIRT + 0x04)], 77);
    assert_eq!(c.data_bus_addr(), 0x7E60_000C);
}

#[test]
fn smi_status_bits() {
    let p = smi::Peripheral::new(&board(), SMI_VIRT, CLOCK_VIRT);
    let c = p.controller;
    let mut regs = Regs::new();
    regs.run(&[c.enable(), c.set_dir(TransferDir::Write), c.clear(), c.start()]);
    assert_eq!(regs.words[&SMI_VIRT], 0b11_1001);
    regs.run(&[c.disable(), c.set_dir(TransferDir::Read)]);
    assert_eq!(regs.words[&SMI_VIRT], 0b01_1000);
    regs.run(&[c.zero(), c.zero_direct(), c.select(&p.devices.device3)]);
    assert_eq!(regs.words[&SMI_VIRT], 0);
    assert_eq!(regs.words[&(SMI_VIRT + 0x34)], 0);
    assert_eq!(regs.words[&(SMI_VIRT + 0x08)], 0x300);
    assert!(c.active(0b100));
    assert!(!c.active(0b011));
}

#[test]
fn pin_modes() {
    let p = gpio::Peripheral::new(&board(), GPIO_VIRT);
    let mut regs = Regs::new();
    regs.words.insert(GPIO_VIRT + 4, 0xFFFF_FFFF);
    regs.run(&[p.pins.pin12.set_mode(Mode::Output), p.pins.pin3.set_mode(Mode::Alt1)]);
    assert_eq!(regs.words[&(GPIO_VIRT + 4)], 0xFFFF_FE7F);
    assert_eq!(regs.words[&GPIO_VIRT], 0b101 << 9);
    assert_eq!(p.pins.pin27.index(), 27);
}

#[test]
fn transfer_control_block_setup() {
    let bytes = Transfer::required_bytes(100).unwrap();
    assert_eq!(bytes, 432);
    let mem = gpu_mem(bytes);
    let (t, ops) = Transfer::new(mem, 100);
    assert_eq!(t.size(), 100);
    let mut regs = Regs::new();
    regs.run(&ops);
    let cb = MEM_VIRT + 400;
    assert_eq!(regs.words[&cb], 0x0004_0148);
    assert_eq!(regs.words[&(cb + 4)], MEM_BUS);
    assert_eq!(regs.words[&(cb + 12)], 400);
    assert_eq!(Transfer::required_bytes(usize::MAX), None);
}

#[test]
fn transfer_data_is_clipped() {
    let (t, _) = Transfer::new(gpu_mem(Transfer::required_bytes(4).unwrap()), 4);
    let ops = t.set_data(&[1, 2, 3, 4, 5, 6]);
    assert_eq!(ops.len(), 4);
    let mut regs = Regs::new();
    regs.run(&ops);
    assert_eq!(regs.words[&(MEM_VIRT + 12)], 4);
    assert!(!regs.words.contains_key(&(MEM_VIRT + 16)));
    assert_eq!(t.set_data(&[7, 8]).len(), 2);
}

fn configured_ops(requested: usize) -> (Regs, usize) {
    let mut dma_p = dma::Peripheral::new(&board(), DMA_VIRT);
    let mut smi_p = smi::Peripheral::new(&board(), SMI_VIRT, CLOCK_VIRT);
    let (mut t, _) = Transfer::new(gpu_mem(Transfer::required_bytes(64).unwrap()), 64);
    let (ct, ops) = t.configure(
        &mut smi_p.controller,
        &mut smi_p.devices.device1,
        &mut dma_p.channels.channel7,
        400,
        requested,
    );
    assert_eq!(ct.size(), 64);
    let mut regs = Regs::watching(CLOCK_VIRT + 0xb0, 0x80, true, 2, 0);
    regs.run(&ops);
    (regs, ops.len())
}

#[test]
fn configure_programs_lengths_and_timing() {
    let (regs, n) = configured_ops(10);
    assert_eq!(n, 19);
    let cb = MEM_VIRT + 256;
    assert_eq!(regs.words[&(cb + 12)], 40);
    assert_eq!(regs.words[&(cb + 8)], 0x7E60_000C);
    assert_eq!(regs.words[&(SMI_VIRT + 0x04)], 10);
    assert_eq!(regs.words[&(SMI_VIRT + 0x1C)], 0xBF06_007F);
    assert_eq!(regs.words[&(SMI_VIRT + 0x08)], 0x100);
    assert_eq!(regs.words[&(SMI_VIRT + 0x30)], 0x10C1_0820);
    assert_eq!(regs.words[&SMI_VIRT], 0b11_0001);
    assert_eq!(regs.polls, 4);
    assert_eq!(regs.words[&(CLOCK_VIRT + 0xb4)], 0x5a00_0000);
    assert_eq!(regs.words[&(DMA_VIRT + 0xFF0)], 1 << 7);

    let (regs, _) = configured_ops(1000);
    assert_eq!(regs.words[&(cb + 12)], 256);
    assert_eq!(regs.words[&(SMI_VIRT + 0x04)], 64);
}

fn start_with_busy(polls: usize) -> Regs {
    let mut dma_p = dma::Peripheral::new(&board(), DMA_VIRT);
    let mut smi_p = smi::Peripheral::new(&board(), SMI_VIRT, CLOCK_VIRT);
    let (mut t, _) = Transfer::new(gpu_mem(Transfer::required_bytes(8).unwrap()), 8);
    let (ct, _) = t.configure(
        &mut smi_p.controller,
        &mut smi_p.devices.device0,
        &mut dma_p.channels.channel2,
        400,
        8,
    );
    run_start(&ct, polls)
}

fn run_start<D: Device, C: Channel>(ct: &ConfiguredTransfer<'_, D, C>, polls: usize) -> Regs {
    let mut regs = Regs::watching(SMI_VIRT, 0b100, false, 0, polls);
    regs.run(&ct.start());
    regs
}

#[test]
fn start_waits_while_active() {
    let regs = start_with_busy(5);
    assert_eq!(regs.polls, 5);
    let dcs = DMA_VIRT + 0x200;
    assert_eq!(
        regs.log,
        vec![
            (dcs, 0x8000_0000),
            (dcs + 4, MEM_BUS + 32),
            (dcs, 0x8000_0002),
            (dcs, 0x8000_0102),
            (dcs, 0x8000_0103),
            (SMI_VIRT, 0b1000),
        ]
    );
    let idle = start_with_busy(0);
    assert_eq!(idle.polls, 0);
    assert_eq!(idle.log.len(), 6);
}

#[test]
fn binding_end_waits_while_active() {
    let mut dma_p = dma::Peripheral::new(&board(), DMA_VIRT);
    let mut smi_p = smi::Peripheral::new(&board(), SMI_VIRT, CLOCK_VIRT);
    let (mut t, _) = Transfer::new(gpu_mem(Transfer::required_bytes(8).unwrap()), 8);
    let (ct, _) = t.configure(
        &mut smi_p.controller,
        &mut smi_p.devices.device0,
        &mut dma_p.channels.channel2,
        400,
        8,
    );
    let wait = ct.until_idle();
    let mut regs = Regs::watching(SMI_VIRT, 0b100, false, 0, 4);
    regs.run(&[wait]);
    assert_eq!(regs.polls, 4);
    assert!(regs.log.is_empty());
    assert_eq!(wait.step(0b100), Step::Poll);
    assert_eq!(wait.step(0b011), Step::Done);
}

#[test]
fn smi_read_settings_word() {
    let p = smi::Peripheral::new(&board(), SMI_VIRT, CLOCK_VIRT);
    let settings = ReadSettings { width: TransferWidth::Bit9, setup: 1, strobe: 2, hold: 3, pace: 4, dreq: true };
    let mut regs = Regs::new();
    regs.run(&[p.devices.device0.set_read_settings(&settings)]);
    assert_eq!(regs.words[&(SMI_VIRT + 0x10)], 0xC103_0482);
    assert_eq!(p.devices.device3.index(), 3);
    assert_eq!(smi::Peripheral::phys(&board()), 0xFE60_0000);
    assert_eq!(smi::Peripheral::clock_phys(&board()), 0xFE10_1000);
}

#[test]
fn boards_and_offsets() {
    let b = Platform::raspberry_pi_zero_1();
    assert_eq!((b.bus, b.phys), (0x7E00_0000, 0x2000_0000));
    assert_eq!(Platform::raspberry_pi_3().phys, 0x3F00_0000);
    assert_eq!(gpio::Peripheral::phys(&Platform::raspberry_pi_2()), 0x3F20_0000);
    let m = MemMap { bus: 0x7E00_7000, phys: 0xFE00_7000, virt: 0x1000 };
    let o = m.offset(0x300);
    assert_eq!((o.bus, o.phys, o.virt), (0x7E00_7300, 0xFE00_7300, 0x1300));
    let w = MemMap { bus: 0, phys: 0, virt: usize::MAX }.offset(2);
    assert_eq!(w.virt, 1);
}
