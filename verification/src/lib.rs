//! A cycle-accurate MOS 6502 processor emulator with a flat 64KB memory.
//!
//! The crate is split into a memory component (`mem`), a mathematical model
//! of the processor's instruction semantics (`model`), the executable
//! processor core proved against that model (`cpu`), and machine-checked
//! statements of the core's algebraic laws (`laws`).
use vstd::prelude::*;

pub mod cpu;
pub mod laws;
pub mod mem;
pub mod model;

pub use cpu::Cpu;
pub use mem::Mem;

verus! {

/// Size of the flat byte-addressable memory: 64KB.
pub const MEM_SIZE: usize = 64 * 1024;

/// Address of the two-byte cold-reset vector (high byte first, low byte second).
pub const RESET_VECTOR_ADDR: usize = 0xFFFC;

/// Execution address installed in the reset vector by `Mem::reset`.
pub const RESET_EXEC_ADDRESS: u16 = 0xFCE2;

/// First address of the one-page stack region (0x100..=0x1FF).
pub const STACK_START_ADDR: u16 = 0x100;

/// Stack pointer offset after a processor reset: the stack grows downwards
/// from the top of the stack page.
pub const STACK_OFFSET_START: u8 = 0xFF;

/// Absolute address of the top stack slot, for reading the stack directly.
pub const STACK_REAL_START: usize = 0x1FF;

} // verus!
