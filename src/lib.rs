//! Precisely timed, DMA-driven parallel output through the secondary memory
//! interface (SMI) of a Raspberry Pi's SoC.
//!
//! Every hardware action is described as a list of [`register::RegOp`]s
//! whose layout, order and timing are proved here; the caller performs them
//! on the mapped register blocks.

pub mod batch;
pub mod dma;
pub mod field;
pub mod gpio;
pub mod gpu;
pub mod mailbox;
pub mod mem;
pub mod platform;
pub mod register;
pub mod smi;
