//! The execution core of a PlayStation emulator: an R3000A interpreter with
//! its system coprocessor, the memory bus with its fixed address map, the
//! interrupt controller, and the driver that interleaves the processor with
//! the video, timer and peripheral clocks.
//!
//! Every executable function carries a contract over a mathematical view of
//! the machine, and the contracts are proved. Nothing here panics. Where
//! the guest does what stops the machine for good, the processor and the
//! driver return a [`fault::Fault`]; the bus and exception entry leave such
//! inputs out by precondition and offer the test for them.

pub mod bits;
pub mod bytes;
pub mod fault;
pub mod memory;
pub mod bios;
pub mod cpu;
pub mod gpu;
pub mod timer;
pub mod bus;
pub mod cdrom;
pub mod controller;
pub mod dma;
pub mod emu;

pub use crate::emu::PSXEmu;
