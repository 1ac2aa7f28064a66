//! Verified core of the hikami evaluation programs: the measurement bookkeeping, the
//! register and SBI request layouts, and the instruction mixes of the emulation benchmark.
//!
//! Everything that touches the hardware (inline assembly, memory-mapped registers, the
//! `ecall` instruction, control and status registers) stays with the caller, which hands
//! the values it read to these functions and performs the requests they return.
use vstd::prelude::*;

pub mod console;
pub mod emulation;
pub mod external_interrupt;
pub mod mixed_ratio;
pub mod mmio;
pub mod plic;
pub mod sbi;
pub mod stats;
pub mod timer;
pub mod timer_interrupt;
pub mod workload;
pub mod zbs;

