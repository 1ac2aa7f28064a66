//! The external-interrupt latency benchmark: the APB timer raises its interrupt through
//! the PLIC every 10 ms, and the trap entry reads how far the counter has already run
//! down; the handler records that delay.
use vstd::prelude::*;
use crate::mmio::MmioWrite;
use crate::plic::TIMER_INTERRUPT_ID;
use crate::stats::{sum_range, lemma_sum_range_bound, LatencySummary};
use crate::timer::{
    APBTMR_CONTROL_ENABLE, APBTMR_CONTROL_INTERRUPT, APBTMR_CONTROL_MODE_PERIODIC, APBTMR_N_CONTROL, APBTMR_N_LOAD_COUNT,
    TIMER_BASE,
};

verus! {

/// Number of samples taken (the first is dropped from the average).
pub const NUM_SAMPLES: usize = 101;
/// Counter ticks in 10 ms at the timer's 24 MHz: the reload value of the periodic timer.
pub const TIMER_INTERVAL: u32 = 240_000;
/// `scause` of a supervisor external interrupt.
pub const SCAUSE_SUPERVISOR_EXTERNAL: u64 = 0x8000_0000_0000_0009;
/// The figure the average is compared with when printed.
pub const EXPECTED_LATENCY: i64 = 10_000;

/// The delays recorded so far: `DELAYS` and `SAMPLE_COUNT` of the benchmark.
pub struct ExternalSamples {
    delays: Vec<u64>,
    count: usize,
}

impl ExternalSamples {
    /// All `NUM_SAMPLES` delay slots, zero where nothing was recorded yet.
    pub closed spec fn delays(&self) -> Seq<u64> {
        self.delays@
    }

    /// The number of delays recorded.
    pub closed spec fn count(&self) -> nat {
        self.count as nat
    }

    /// The slots hold `NUM_SAMPLES` delays of at most `TIMER_INTERVAL` each, and the count
    /// never passes `NUM_SAMPLES`.
    pub closed spec fn wf(&self) -> bool {
        &&& self.delays@.len() == NUM_SAMPLES
        &&& self.count <= NUM_SAMPLES
        &&& forall|i: int| 0 <= i < NUM_SAMPLES ==> #[trigger] self.delays@[i] <= TIMER_INTERVAL
    }

    /// The state before the first interrupt: no delays, every slot zero.
    pub fn new() -> (samples: Self)
        ensures
            samples.wf(),
            samples.count() == 0,
            samples.delays() == Seq::new(NUM_SAMPLES as nat, |i: int| 0u64),
    {
        let mut delays: Vec<u64> = Vec::new();
        let mut i: usize = 0;
        while i < NUM_SAMPLES
            invariant
                i <= NUM_SAMPLES,
                delays@ == Seq::new(i as nat, |j: int| 0u64),
            decreases NUM_SAMPLES - i,
        {
            delays.push(0);
            i = i + 1;
            assert(delays@ =~= Seq::new(i as nat, |j: int| 0u64));
        }
        ExternalSamples { delays, count: 0 }
    }

    /// The number of delays recorded.
    pub fn sample_count(&self) -> (n: usize)
        requires
            self.wf(),
        ensures
            n == self.count(),
            n <= NUM_SAMPLES,
    {
        self.count
    }

    /// What well-formedness gives a caller: `NUM_SAMPLES` slots, and a count that never
    /// passes `NUM_SAMPLES`, with each delay at most `TIMER_INTERVAL`.
    pub proof fn lemma_wf_bounds(self)
        requires
            self.wf(),
        ensures
            self.delays().len() == NUM_SAMPLES,
            self.count() <= NUM_SAMPLES,
            forall|i: int| 0 <= i < NUM_SAMPLES ==> #[trigger] self.delays()[i] <= TIMER_INTERVAL,
    {
    }

    /// Whether all samples are in: the benchmark waits for interrupts until then.
    pub fn is_complete(&self) -> (done: bool)
        ensures
            done == (self.count() >= NUM_SAMPLES),
    {
        self.count >= NUM_SAMPLES
    }

    /// The delay in slot `i`.
    pub fn delay(&self, i: usize) -> (d: u64)
        requires
            self.wf(),
            i < NUM_SAMPLES,
        ensures
            d == self.delays()[i as int],
            d <= TIMER_INTERVAL,
            self.delays().len() == NUM_SAMPLES,
    {
        self.delays[i]
    }
}

/// Whether `scause` reports a supervisor external interrupt.
pub open spec fn is_supervisor_external_spec(scause: usize) -> bool {
    scause as u64 == SCAUSE_SUPERVISOR_EXTERNAL
}

/// Whether `scause` reports a supervisor external interrupt, the only trap the handler
/// acts on; only then is the PLIC claim register read.
pub fn is_supervisor_external(scause: usize) -> (r: bool)
    ensures
        r == is_supervisor_external_spec(scause),
{
    scause as u64 == SCAUSE_SUPERVISOR_EXTERNAL
}

/// What the handler asks of the hardware after a claim.
#[derive(Clone, Copy, Debug, PartialEq, Eq, Structural)]
pub struct ExternalActions {
    /// Read the timer's end-of-interrupt register, which clears its interrupt.
    pub read_eoi: bool,
    /// Write this source back to the claim/complete register to complete it.
    pub complete: Option<u32>,
}

/// Handles a trap. `drift_time` is the counter value the trap entry read, that is the
/// ticks still left of the 10 ms period; `interrupt_id` is what the PLIC claim register
/// gave, read by the caller only when [`is_supervisor_external`] holds of `scause` (it is
/// not looked at otherwise). A claim from the timer records `TIMER_INTERVAL -
/// drift_time` while there is room, and has the timer's interrupt cleared; every nonzero
/// claim is completed.
pub fn handle_interrupt(
    samples: &mut ExternalSamples,
    scause: usize,
    drift_time: u64,
    interrupt_id: u32,
) -> (actions: ExternalActions)
    requires
        old(samples).wf(),
        is_supervisor_external_spec(scause) && interrupt_id == TIMER_INTERRUPT_ID
            && old(samples).count() < NUM_SAMPLES ==> drift_time <= TIMER_INTERVAL,
    ensures
        old(samples).delays().len() == NUM_SAMPLES,
        old(samples).count() <= NUM_SAMPLES,
        final(samples).wf(),
        final(samples).count() <= NUM_SAMPLES,
        final(samples).delays().len() == NUM_SAMPLES,
        final(samples).count() >= old(samples).count(),
        forall|i: int|
            0 <= i < old(samples).count() ==> #[trigger] final(samples).delays()[i] == old(samples).delays()[i],
        !is_supervisor_external_spec(scause) ==> {
            &&& final(samples).delays() == old(samples).delays()
            &&& final(samples).count() == old(samples).count()
            &&& actions == (ExternalActions { read_eoi: false, complete: None })
        },
        is_supervisor_external_spec(scause) ==> {
            &&& actions.read_eoi == (interrupt_id == TIMER_INTERRUPT_ID)
            &&& actions.complete == (if interrupt_id != 0 {
                Some(interrupt_id)
            } else {
                None
            })
            &&& if interrupt_id == TIMER_INTERRUPT_ID && old(samples).count() < NUM_SAMPLES {
                &&& final(samples).delays() == old(samples).delays().update(
                    old(samples).count() as int,
                    (TIMER_INTERVAL - drift_time) as u64,
                )
                &&& final(samples).count() == old(samples).count() + 1
            } else {
                &&& final(samples).delays() == old(samples).delays()
                &&& final(samples).count() == old(samples).count()
            }
        },
{
    if !is_supervisor_external(scause) {
        return ExternalActions { read_eoi: false, complete: None };
    }
    let id = interrupt_id as usize;
    let mut read_eoi = false;
    if id == TIMER_INTERRUPT_ID {
        if samples.count < NUM_SAMPLES {
            let delay = TIMER_INTERVAL as u64 - drift_time;
            let count = samples.count;
            samples.delays.set(count, delay);
            samples.count = count + 1;
        }
        read_eoi = true;
    }
    let complete = if id != 0 {
        Some(interrupt_id)
    } else {
        None
    };
    ExternalActions { read_eoi, complete }
}

/// The stores that start the timer: load the 10 ms interval, then enable it in periodic
/// mode with its interrupt unmasked (the mask bit clear), so it interrupts every period.
pub fn start_timer() -> (writes: Vec<MmioWrite>)
    ensures
        writes@ == seq![
            MmioWrite { addr: (TIMER_BASE + APBTMR_N_LOAD_COUNT) as usize, value: TIMER_INTERVAL },
            MmioWrite { addr: (TIMER_BASE + APBTMR_N_CONTROL) as usize, value: 3u32 },
        ],
        writes@[1].value & APBTMR_CONTROL_INTERRUPT == 0,
{
    let control_val: u32 = APBTMR_CONTROL_ENABLE | APBTMR_CONTROL_MODE_PERIODIC;
    assert(control_val == 3 && control_val & 4 == 0) by (bit_vector)
        requires
            control_val == 1u32 | 2u32,
    ;
    let mut writes: Vec<MmioWrite> = Vec::new();
    writes.push(MmioWrite { addr: TIMER_BASE + APBTMR_N_LOAD_COUNT, value: TIMER_INTERVAL });
    writes.push(MmioWrite { addr: TIMER_BASE + APBTMR_N_CONTROL, value: control_val });
    writes
}

/// The store that stops the timer.
pub fn stop_timer() -> (write: MmioWrite)
    ensures
        write == (MmioWrite { addr: (TIMER_BASE + APBTMR_N_CONTROL) as usize, value: 0 }),
{
    MmioWrite { addr: TIMER_BASE + APBTMR_N_CONTROL, value: 0 }
}

/// The results: the delays of slots 1 to `NUM_SAMPLES - 2` are added up (the first
/// sample and the last are left out) and averaged over their number, 99; the average is
/// also printed minus `EXPECTED_LATENCY`.
pub fn summarize_results(samples: &ExternalSamples) -> (summary: LatencySummary)
    requires
        samples.wf(),
    ensures
        summary.sum == sum_range(samples.delays(), 1, NUM_SAMPLES - 1),
        summary.average == summary.sum / 99,
        summary.versus_expected == summary.average - EXPECTED_LATENCY,
{
    let mut sum: u64 = 0;
    let mut i: usize = 1;
    while i < NUM_SAMPLES - 1
        invariant
            1 <= i <= NUM_SAMPLES - 1,
            samples.delays@.len() == NUM_SAMPLES,
            forall|j: int| 0 <= j < NUM_SAMPLES ==> #[trigger] samples.delays@[j] <= TIMER_INTERVAL,
            sum == sum_range(samples.delays@, 1, i as int),
        decreases NUM_SAMPLES - 1 - i,
    {
        proof {
            lemma_sum_range_bound(samples.delays@, 1, i as int, TIMER_INTERVAL as int);
        }
        sum = sum + samples.delays[i];
        i = i + 1;
    }
    let average = sum / ((NUM_SAMPLES - 1 - 1) as u64);
    proof {
        lemma_sum_range_bound(samples.delays@, 1, (NUM_SAMPLES - 1) as int, TIMER_INTERVAL as int);
    }
    LatencySummary { sum, average, versus_expected: average as i64 - EXPECTED_LATENCY }
}

} // verus!
