//! The two clocks the emulation benchmark reads: the Synopsys APB timer of the Milk-V
//! Megrez, a 32-bit down-counter at 24 MHz, and the Goldfish real-time clock of the QEMU
//! `virt` machine, a 64-bit nanosecond counter read as two 32-bit halves.
use vstd::prelude::*;
use crate::mmio::MmioWrite;

verus! {

/// Base address of the APB timer (`timer@0x51840000` in the device tree).
pub const TIMER_BASE: usize = 0x5184_0000;
/// Offset of the load-count register.
pub const APBTMR_N_LOAD_COUNT: usize = 0x00;
/// Offset of the current-value register.
pub const APBTMR_N_CURRENT_VALUE: usize = 0x04;
/// Offset of the control register.
pub const APBTMR_N_CONTROL: usize = 0x08;
/// Offset of the end-of-interrupt register; reading it clears the timer's interrupt.
pub const APBTMRS_N_EOI: usize = 0x0c;
/// Control bit: the timer counts.
pub const APBTMR_CONTROL_ENABLE: u32 = 1;
/// Control bit: user-defined (periodic) mode, the timer reloads from the load count when
/// it reaches zero; clear, the timer runs free from the maximum count.
pub const APBTMR_CONTROL_MODE_PERIODIC: u32 = 2;
/// Control bit: the timer's interrupt mask; set, the timer raises no interrupt.
pub const APBTMR_CONTROL_INTERRUPT: u32 = 4;
/// The largest load count: the counter starts from it and counts down.
pub const APBTMR_MAX_CNT: u32 = 0xFFFF_FFFF;
/// Counter ticks per microsecond (the timer runs at 24 MHz).
pub const TICKS_PER_US: u64 = 24;
/// Base address of the Goldfish real-time clock of QEMU's `virt` machine: the low 32 bits
/// of the nanosecond count at offset 0, the high 32 bits at offset 4.
pub const RTC_BASE: usize = 0x10_1000;

/// The platform the benchmark runs on.
#[derive(Clone, Copy, Debug, PartialEq, Eq, Structural)]
pub enum Platform {
    /// QEMU's `virt` machine: time is read from the real-time clock, in nanoseconds.
    Qemu,
    /// Milk-V Megrez: time is read from the APB down-counter, in microseconds.
    Megrez,
}

/// What was read from the platform's clock.
#[derive(Clone, Copy, Debug, PartialEq, Eq, Structural)]
pub enum TimeSample {
    /// The two halves of the real-time clock, low half read first.
    Rtc { low: u32, high: u32 },
    /// The current value of the APB down-counter.
    DownCounter { current: u32 },
}

/// The 64-bit count whose halves are `low` and `high`.
pub open spec fn rtc_time(low: u32, high: u32) -> int {
    high * 0x1_0000_0000 + low
}

/// The microseconds elapsed since the down-counter was loaded with its maximum.
pub open spec fn counter_time(current: u32) -> int {
    (APBTMR_MAX_CNT - current) / (TICKS_PER_US as int)
}

/// The time a sample stands for.
pub open spec fn sample_time(sample: TimeSample) -> int {
    match sample {
        TimeSample::Rtc { low, high } => rtc_time(low, high),
        TimeSample::DownCounter { current } => counter_time(current),
    }
}

/// Initializes the timer for performance measurement: load the maximum count, then
/// enable the timer in periodic mode with its interrupt masked (interrupts disabled).
/// The stores, in order.
///
/// The control value is 7, not 3: the mask bit (bit 2) must be set for the interrupt to
/// stay disabled; with it clear the timer would interrupt every period, as it does in the
/// external-interrupt benchmark.
pub fn init_timer() -> (writes: Vec<MmioWrite>)
    ensures
        writes@ == seq![
            MmioWrite { addr: (TIMER_BASE + APBTMR_N_LOAD_COUNT) as usize, value: APBTMR_MAX_CNT },
            MmioWrite {
                addr: (TIMER_BASE + APBTMR_N_CONTROL) as usize,
                value: (APBTMR_CONTROL_ENABLE | APBTMR_CONTROL_MODE_PERIODIC
                    | APBTMR_CONTROL_INTERRUPT) as u32,
            },
        ],
        writes@[1].value == 7,
        writes@[1].value & APBTMR_CONTROL_INTERRUPT == APBTMR_CONTROL_INTERRUPT,
{
    let control_val: u32 = APBTMR_CONTROL_ENABLE | APBTMR_CONTROL_MODE_PERIODIC
        | APBTMR_CONTROL_INTERRUPT;
    assert(control_val == 7 && control_val & 4 == 4) by (bit_vector)
        requires
            control_val == 1u32 | 2u32 | 4u32,
    ;
    let mut writes: Vec<MmioWrite> = Vec::new();
    writes.push(MmioWrite { addr: TIMER_BASE + APBTMR_N_LOAD_COUNT, value: APBTMR_MAX_CNT });
    writes.push(MmioWrite { addr: TIMER_BASE + APBTMR_N_CONTROL, value: control_val });
    writes
}

/// Restarts the count: the store of the maximum into the load-count register.
pub fn reset_counter() -> (write: MmioWrite)
    ensures
        write == (MmioWrite { addr: (TIMER_BASE + APBTMR_N_LOAD_COUNT) as usize, value: APBTMR_MAX_CNT }),
{
    MmioWrite { addr: TIMER_BASE + APBTMR_N_LOAD_COUNT, value: APBTMR_MAX_CNT }
}

/// The current time from what was read of the clock: on QEMU the 64-bit nanosecond count
/// whose halves were read, on the Megrez the microseconds since the counter was loaded.
pub fn get_current_time(sample: TimeSample) -> (t: u64)
    ensures
        t == sample_time(sample),
{
    match sample {
        TimeSample::Rtc { low, high } => {
            let t: u64 = ((high as u64) << 32u64) | (low as u64);
            assert(t == (high as u64) * 0x1_0000_0000u64 + (low as u64)) by (bit_vector)
                requires
                    t == ((high as u64) << 32u64) | (low as u64),
            ;
            t
        },
        TimeSample::DownCounter { current } => {
            let elapsed: u32 = APBTMR_MAX_CNT - current;
            (elapsed as u64) / TICKS_PER_US
        },
    }
}

/// The ticks from `start` to `end`, or zero when the clock went backwards.
pub open spec fn elapsed(start: u64, end: u64) -> int {
    if end >= start {
        end - start
    } else {
        0
    }
}

/// The ticks between two readings of the clock, saturating at zero.
pub fn elapsed_ticks(start: u64, end: u64) -> (ticks: u64)
    ensures
        ticks == elapsed(start, end),
{
    end.saturating_sub(start)
}

/// Reading the real-time clock is exact: the time splits back into the two halves read.
pub proof fn lemma_rtc_halves(low: u32, high: u32)
    ensures
        0 <= rtc_time(low, high) <= u64::MAX,
        rtc_time(low, high) % 0x1_0000_0000 == low,
        rtc_time(low, high) / 0x1_0000_0000 == high,
{
    assert(rtc_time(low, high) <= u64::MAX) by (nonlinear_arith)
        requires
            high <= u32::MAX,
            low <= u32::MAX,
    ;
    assert(rtc_time(low, high) % 0x1_0000_0000 == low) by (nonlinear_arith)
        requires
            low < 0x1_0000_0000,
    ;
    assert(rtc_time(low, high) / 0x1_0000_0000 == high) by (nonlinear_arith)
        requires
            low < 0x1_0000_0000,
    ;
}

/// The down-counter's time never runs backwards: a later (smaller) counter value gives
/// at least as many microseconds, and the count stays under 2^32 / 24.
pub proof fn lemma_counter_time_monotonic(earlier: u32, later: u32)
    requires
        later <= earlier,
    ensures
        counter_time(earlier) <= counter_time(later),
        counter_time(later) <= 0xFFFF_FFFFint / 24,
{
    assert(counter_time(earlier) <= counter_time(later)) by (nonlinear_arith)
        requires
            0xFFFF_FFFF - earlier <= 0xFFFF_FFFF - later,
    ;
    assert(counter_time(later) <= 0xFFFF_FFFFint / 24) by (nonlinear_arith)
        requires
            0xFFFF_FFFF - later <= 0xFFFF_FFFF,
    ;
}

/// The elapsed ticks undo the subtraction: from `start`, `elapsed` more ticks reach `end`
/// whenever the clock did not go backwards.
pub proof fn lemma_elapsed_restores_end(start: u64, end: u64)
    ensures
        start <= end ==> start + elapsed(start, end) == end,
        end < start ==> elapsed(start, end) == 0,
        elapsed(start, end) <= end,
{
}

} // verus!
