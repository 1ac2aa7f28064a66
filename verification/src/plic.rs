//! The register layout of the RISC-V Platform-Level Interrupt Controller (PLIC), and its
//! set-up for the timer interrupt of the external-interrupt benchmark.
use vstd::prelude::*;
use crate::mmio::MmioWrite;

verus! {

/// Base address of the PLIC.
pub const PLIC_BASE: usize = 0x0c00_0000;
/// Offset of the per-source priority registers, one 32-bit word per source.
pub const PLIC_PRIORITY_OFFSET: usize = 0x0;
/// Offset of the per-context enable bit arrays, 0x80 bytes per context.
pub const PLIC_ENABLE_OFFSET: usize = 0x2000;
/// Offset of the per-context threshold and claim registers, 0x1000 bytes per context.
pub const PLIC_CONTEXT_OFFSET: usize = 0x20_0000;
/// Offset of the priority threshold register within a context.
pub const PLIC_THRESHOLD_OFFSET: usize = 0x0;
/// Offset of the claim/complete register within a context.
pub const PLIC_CLAIM_OFFSET: usize = 0x4;
/// Interrupt source of the APB timer (`timer@0x51840000` has interrupt 0x159).
pub const TIMER_INTERRUPT_ID: usize = 0x159;
/// The context of supervisor mode on hart 0.
pub const PLIC_CONTEXT_S_MODE: usize = 1;
/// Number of interrupt sources the PLIC address map has room for.
pub const PLIC_MAX_SOURCES: usize = 1024;
/// Number of contexts the PLIC address map has room for.
pub const PLIC_MAX_CONTEXTS: usize = 15872;

/// The byte offset of the priority register of source `id`.
pub open spec fn priority_offset_spec(id: int) -> int {
    PLIC_PRIORITY_OFFSET + id * 4
}

/// The byte offset of the enable word of `context` that holds the bit of source `id`.
pub open spec fn enable_offset_spec(context: int, id: int) -> int {
    PLIC_ENABLE_OFFSET + context * 0x80 + (id / 32) * 4
}

/// The byte offset of the register at `reg` within the threshold/claim block of `context`.
pub open spec fn context_offset_spec(context: int, reg: int) -> int {
    PLIC_CONTEXT_OFFSET + context * 0x1000 + reg
}

/// The byte offset of the priority register of source `id`.
pub fn priority_offset(id: usize) -> (off: usize)
    requires
        id < PLIC_MAX_SOURCES,
    ensures
        off == priority_offset_spec(id as int),
{
    PLIC_PRIORITY_OFFSET + id * 4
}

/// The byte offset of the enable word of `context` that holds the bit of source `id`.
pub fn enable_offset(context: usize, id: usize) -> (off: usize)
    requires
        id < PLIC_MAX_SOURCES,
        context < PLIC_MAX_CONTEXTS,
    ensures
        off == enable_offset_spec(context as int, id as int),
        off % 4 == 0,
{
    PLIC_ENABLE_OFFSET + context * 0x80 + (id / 32) * 4
}

/// The mask of the bit of source `id` within its enable word.
pub fn enable_bit(id: usize) -> (bit: u32)
    ensures
        bit == 1u32 << ((id % 32) as u32),
{
    1u32 << ((id % 32) as u32)
}

/// The byte offset of the priority threshold register of `context`.
pub fn threshold_offset(context: usize) -> (off: usize)
    requires
        context < PLIC_MAX_CONTEXTS,
    ensures
        off == context_offset_spec(context as int, PLIC_THRESHOLD_OFFSET as int),
{
    PLIC_CONTEXT_OFFSET + context * 0x1000 + PLIC_THRESHOLD_OFFSET
}

/// The byte offset of the claim/complete register of `context`.
pub fn claim_offset(context: usize) -> (off: usize)
    requires
        context < PLIC_MAX_CONTEXTS,
    ensures
        off == context_offset_spec(context as int, PLIC_CLAIM_OFFSET as int),
{
    PLIC_CONTEXT_OFFSET + context * 0x1000 + PLIC_CLAIM_OFFSET
}

/// The address of the supervisor-mode claim/complete register.
pub fn claim_address() -> (addr: usize)
    ensures
        addr == PLIC_BASE + context_offset_spec(PLIC_CONTEXT_S_MODE as int, PLIC_CLAIM_OFFSET as int),
        addr == 0x0c20_1004,
{
    PLIC_BASE + claim_offset(PLIC_CONTEXT_S_MODE)
}

/// How the PLIC is set up for the timer interrupt: give the source priority 1, set its
/// enable bit in the supervisor context (a read-modify-write of the enable word), and
/// let the supervisor context take every priority above 0.
#[derive(Clone, Copy, Debug, PartialEq, Eq, Structural)]
pub struct PlicInit {
    /// The first store: priority 1 for the timer source.
    pub priority: MmioWrite,
    /// The address of the enable word to read and then write back.
    pub enable_addr: usize,
    /// The bit of the timer source in that word.
    pub enable_bit: u32,
    /// The last store: threshold 0 for the supervisor context.
    pub threshold: MmioWrite,
}

/// Initializes the PLIC for the timer interrupt: the accesses to make, in order.
pub fn plic_init() -> (init: PlicInit)
    ensures
        init.priority == (MmioWrite {
            addr: (PLIC_BASE + priority_offset_spec(TIMER_INTERRUPT_ID as int)) as usize,
            value: 1,
        }),
        init.enable_addr == PLIC_BASE + enable_offset_spec(
            PLIC_CONTEXT_S_MODE as int,
            TIMER_INTERRUPT_ID as int,
        ),
        init.enable_bit == 1u32 << ((TIMER_INTERRUPT_ID % 32) as u32),
        init.threshold == (MmioWrite {
            addr: (PLIC_BASE + context_offset_spec(
                PLIC_CONTEXT_S_MODE as int,
                PLIC_THRESHOLD_OFFSET as int,
            )) as usize,
            value: 0,
        }),
        init.priority.addr == 0x0c00_0564,
        init.enable_addr == 0x0c00_20a8,
        init.enable_bit == 0x0200_0000,
        init.threshold.addr == 0x0c20_1000,
{
    let bit = enable_bit(TIMER_INTERRUPT_ID);
    assert(bit == 0x0200_0000) by (bit_vector)
        requires
            bit == 1u32 << 25u32,
    ;
    PlicInit {
        priority: MmioWrite { addr: PLIC_BASE + priority_offset(TIMER_INTERRUPT_ID), value: 1 },
        enable_addr: PLIC_BASE + enable_offset(PLIC_CONTEXT_S_MODE, TIMER_INTERRUPT_ID),
        enable_bit: bit,
        threshold: MmioWrite { addr: PLIC_BASE + threshold_offset(PLIC_CONTEXT_S_MODE), value: 0 },
    }
}

/// The store that sets the timer's enable bit, given what the enable word held.
pub fn enable_write(init: PlicInit, current_enables: u32) -> (write: MmioWrite)
    ensures
        write == (MmioWrite { addr: init.enable_addr, value: current_enables | init.enable_bit }),
{
    MmioWrite { addr: init.enable_addr, value: current_enables | init.enable_bit }
}

/// Enable words address every source exactly once: source `id` is bit `id % 32` of word
/// `id / 32`, that word sits `4 * (id / 32)` bytes into the context's array, and the
/// array of each context stays inside its 0x80 bytes.
pub proof fn lemma_enable_layout(context: int, id: int)
    requires
        0 <= id < PLIC_MAX_SOURCES,
        0 <= context < PLIC_MAX_CONTEXTS,
    ensures
        32 * (id / 32) + id % 32 == id,
        0 <= id % 32 < 32,
        PLIC_ENABLE_OFFSET + context * 0x80 <= enable_offset_spec(context, id)
            < PLIC_ENABLE_OFFSET + (context + 1) * 0x80,
{
}

/// Setting a source's enable bit turns that bit on and leaves every other source of the
/// word as it was.
pub proof fn lemma_enable_preserves_others(current: u32, bit_index: u32)
    requires
        bit_index < 32,
    ensures
        (current | (1u32 << bit_index)) & (1u32 << bit_index) == (1u32 << bit_index),
        forall|j: u32|
            j < 32 && j != bit_index ==> ((current | (1u32 << bit_index)) >> j) & 1 == (current >> j) & 1,
{
    assert((current | (1u32 << bit_index)) & (1u32 << bit_index) == (1u32 << bit_index))
        by (bit_vector)
        requires
            bit_index < 32,
    ;
    assert forall|j: u32| j < 32 && j != bit_index implies ((current | (1u32 << bit_index)) >> j) & 1
        == (current >> j) & 1 by {
        assert(((current | (1u32 << bit_index)) >> j) & 1 == (current >> j) & 1) by (bit_vector)
            requires
                j < 32,
                bit_index < 32,
                j != bit_index,
        ;
    }
}

} // verus!
