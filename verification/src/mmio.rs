//! Accesses to 32-bit memory-mapped device registers, as values the caller performs.
use vstd::prelude::*;

verus! {

/// A volatile 32-bit store of `value` at physical address `addr`.
#[derive(Clone, Copy, Debug, PartialEq, Eq, Structural)]
pub struct MmioWrite {
    pub addr: usize,
    pub value: u32,
}

} // verus!
