//! The timer-interrupt latency benchmark: the SBI timer interrupts every 10 ms, the trap
//! entry reads the free-running APB down-counter, and the handler records that stamp.
//! The latency is the difference between consecutive stamps.
use vstd::prelude::*;
use crate::mmio::MmioWrite;
use crate::sbi::{set_timer, set_timer_call, SbiCall};
use crate::stats::LatencySummary;
use crate::timer::{
    APBTMR_CONTROL_ENABLE, APBTMR_CONTROL_INTERRUPT, APBTMR_N_CONTROL, APBTMR_N_LOAD_COUNT,
    APBTMR_MAX_CNT, TIMER_BASE,
};

verus! {

/// Number of samples taken (the first is dropped from the average).
pub const NUM_SAMPLES: usize = 100;
/// `time` ticks in 10 ms on QEMU's `virt` machine (10 MHz): the timer period.
pub const TIMER_INTERVAL: u32 = 100_000;
/// `scause` of a supervisor timer interrupt.
pub const SCAUSE_SUPERVISOR_TIMER: u64 = 0x8000_0000_0000_0005;
/// The figure the average is compared with when printed.
pub const EXPECTED_LATENCY: i64 = 240_000;

/// The stamps recorded so far: `TIMESTAMPS` and `SAMPLE_COUNT` of the benchmark.
pub struct TimerSamples {
    timestamps: Vec<u32>,
    count: usize,
}

impl TimerSamples {
    /// All `NUM_SAMPLES` stamp slots, zero where nothing was recorded yet.
    pub closed spec fn timestamps(&self) -> Seq<u32> {
        self.timestamps@
    }

    /// The number of stamps recorded.
    pub closed spec fn count(&self) -> nat {
        self.count as nat
    }

    /// The slots hold `NUM_SAMPLES` stamps and the count never passes `NUM_SAMPLES`.
    pub closed spec fn wf(&self) -> bool {
        &&& self.timestamps@.len() == NUM_SAMPLES
        &&& self.count <= NUM_SAMPLES
    }

    /// The state before the first interrupt: no stamps, every slot zero.
    pub fn new() -> (samples: Self)
        ensures
            samples.wf(),
            samples.count() == 0,
            samples.timestamps() == Seq::new(NUM_SAMPLES as nat, |i: int| 0u32),
    {
        let mut timestamps: Vec<u32> = Vec::new();
        let mut i: usize = 0;
        while i < NUM_SAMPLES
            invariant
                i <= NUM_SAMPLES,
                timestamps@ == Seq::new(i as nat, |j: int| 0u32),
            decreases NUM_SAMPLES - i,
        {
            timestamps.push(0);
            i = i + 1;
            assert(timestamps@ =~= Seq::new(i as nat, |j: int| 0u32));
        }
        TimerSamples { timestamps, count: 0 }
    }

    /// The number of stamps recorded.
    pub fn sample_count(&self) -> (n: usize)
        requires
            self.wf(),
        ensures
            n == self.count(),
            n <= NUM_SAMPLES,
    {
        self.count
    }

    /// What well-formedness gives a caller: `NUM_SAMPLES` slots, and a count that never
    /// passes `NUM_SAMPLES`.
    pub proof fn lemma_wf_bounds(self)
        requires
            self.wf(),
        ensures
            self.timestamps().len() == NUM_SAMPLES,
            self.count() <= NUM_SAMPLES,
    {
    }

    /// Whether all samples are in: the benchmark waits for interrupts until then.
    pub fn is_complete(&self) -> (done: bool)
        ensures
            done == (self.count() >= NUM_SAMPLES),
    {
        self.count >= NUM_SAMPLES
    }

    /// The stamp in slot `i`.
    pub fn timestamp(&self, i: usize) -> (t: u32)
        requires
            self.wf(),
            i < NUM_SAMPLES,
        ensures
            t == self.timestamps()[i as int],
            self.timestamps().len() == NUM_SAMPLES,
    {
        self.timestamps[i]
    }
}

/// Whether `scause` reports a supervisor timer interrupt.
pub open spec fn is_supervisor_timer_spec(scause: usize) -> bool {
    scause as u64 == SCAUSE_SUPERVISOR_TIMER
}

/// Whether `scause` reports a supervisor timer interrupt, the only trap the handler
/// acts on.
pub fn is_supervisor_timer(scause: usize) -> (r: bool)
    ensures
        r == is_supervisor_timer_spec(scause),
{
    scause as u64 == SCAUSE_SUPERVISOR_TIMER
}

/// What the handler asks of the hardware.
#[derive(Clone, Copy, Debug, PartialEq, Eq, Structural)]
pub struct TimerActions {
    /// The `ecall` that programs the next timer interrupt.
    pub next_timer: Option<SbiCall>,
    /// Clear the supervisor timer-interrupt pending bit (bit 5) of `sip`.
    pub clear_stip: bool,
}

/// Handles a trap. `interrupt_time` is the down-counter value the trap entry read and
/// `current_time` the `time` CSR read on entry to the handler. A timer interrupt records
/// the stamp while there is room, asks for the next interrupt one period after
/// `current_time`, and has the pending bit cleared; any other trap changes nothing.
pub fn handle_interrupt(
    samples: &mut TimerSamples,
    scause: usize,
    interrupt_time: u32,
    current_time: u64,
) -> (actions: TimerActions)
    requires
        old(samples).wf(),
        is_supervisor_timer_spec(scause) ==> current_time + TIMER_INTERVAL <= u64::MAX,
    ensures
        old(samples).timestamps().len() == NUM_SAMPLES,
        old(samples).count() <= NUM_SAMPLES,
        final(samples).wf(),
        final(samples).count() <= NUM_SAMPLES,
        final(samples).timestamps().len() == NUM_SAMPLES,
        final(samples).count() >= old(samples).count(),
        forall|i: int|
            0 <= i < old(samples).count() ==> #[trigger] final(samples).timestamps()[i]
                == old(samples).timestamps()[i],
        !is_supervisor_timer_spec(scause) ==> {
            &&& final(samples).timestamps() == old(samples).timestamps()
            &&& final(samples).count() == old(samples).count()
            &&& actions == (TimerActions { next_timer: None, clear_stip: false })
        },
        is_supervisor_timer_spec(scause) ==> {
            &&& actions.next_timer == Some(set_timer_call((current_time + TIMER_INTERVAL) as u64))
            &&& actions.next_timer.unwrap().arg1 == 0
            &&& (current_time + TIMER_INTERVAL <= usize::MAX ==> actions.next_timer.unwrap().arg0
                == current_time + TIMER_INTERVAL)
            &&& actions.clear_stip
            &&& if old(samples).count() < NUM_SAMPLES {
                &&& final(samples).timestamps() == old(samples).timestamps().update(
                    old(samples).count() as int,
                    interrupt_time,
                )
                &&& final(samples).count() == old(samples).count() + 1
            } else {
                &&& final(samples).timestamps() == old(samples).timestamps()
                &&& final(samples).count() == old(samples).count()
            }
        },
{
    if !is_supervisor_timer(scause) {
        return TimerActions { next_timer: None, clear_stip: false };
    }
    if samples.count < NUM_SAMPLES {
        let count = samples.count;
        samples.timestamps.set(count, interrupt_time);
        samples.count = count + 1;
    }
    let target_time = current_time + TIMER_INTERVAL as u64;
    TimerActions { next_timer: Some(set_timer(target_time)), clear_stip: true }
}

/// The `ecall` that sets the first timer interrupt one period after `now`.
pub fn first_timer(now: u64) -> (call: SbiCall)
    requires
        now + TIMER_INTERVAL <= u64::MAX,
    ensures
        call == set_timer_call((now + TIMER_INTERVAL) as u64),
        call.arg1 == 0,
        now + TIMER_INTERVAL <= usize::MAX ==> call.arg0 == now + TIMER_INTERVAL,
{
    set_timer(now + TIMER_INTERVAL as u64)
}

/// The stores that start the free-running stamp counter: load the maximum count, then
/// enable the timer in free-running mode (periodic bit clear) with its interrupt masked,
/// so the counter only serves as a clock.
pub fn start_timer() -> (writes: Vec<MmioWrite>)
    ensures
        writes@ == seq![
            MmioWrite { addr: (TIMER_BASE + APBTMR_N_LOAD_COUNT) as usize, value: APBTMR_MAX_CNT },
            MmioWrite { addr: (TIMER_BASE + APBTMR_N_CONTROL) as usize, value: 5u32 },
        ],
        writes@[1].value & APBTMR_CONTROL_INTERRUPT == APBTMR_CONTROL_INTERRUPT,
{
    let control_val: u32 = APBTMR_CONTROL_ENABLE | APBTMR_CONTROL_INTERRUPT;
    assert(control_val == 5 && control_val & 4 == 4) by (bit_vector)
        requires
            control_val == 1u32 | 4u32,
    ;
    let mut writes: Vec<MmioWrite> = Vec::new();
    writes.push(MmioWrite { addr: TIMER_BASE + APBTMR_N_LOAD_COUNT, value: APBTMR_MAX_CNT });
    writes.push(MmioWrite { addr: TIMER_BASE + APBTMR_N_CONTROL, value: control_val });
    writes
}

/// Whether every stamp from slot 1 to slot `NUM_SAMPLES - 2` is at least the next one:
/// the down-counter ran down between them, so their difference is a latency.
pub open spec fn counts_down_spec(ts: Seq<u32>) -> bool {
    forall|i: int| 1 <= i < NUM_SAMPLES - 1 ==> #[trigger] ts[i] >= ts[i + 1]
}

/// The sum of the differences `ts[i] - ts[i + 1]` for `lo <= i < hi`.
pub open spec fn delay_sum(ts: Seq<u32>, lo: int, hi: int) -> int
    decreases hi - lo,
{
    if hi <= lo {
        0
    } else {
        delay_sum(ts, lo, hi - 1) + (ts[hi - 1] - ts[hi])
    }
}

/// Whether the stamps can be summarized: see [`counts_down_spec`].
pub fn counts_down(samples: &TimerSamples) -> (r: bool)
    requires
        samples.wf(),
    ensures
        r == counts_down_spec(samples.timestamps()),
{
    let mut i: usize = 1;
    while i < NUM_SAMPLES - 1
        invariant
            1 <= i <= NUM_SAMPLES - 1,
            samples.timestamps@.len() == NUM_SAMPLES,
            forall|j: int| 1 <= j < i ==> #[trigger] samples.timestamps@[j] >= samples.timestamps@[j + 1],
        decreases NUM_SAMPLES - 1 - i,
    {
        if samples.timestamps[i] < samples.timestamps[i + 1] {
            return false;
        }
        i = i + 1;
    }
    true
}

/// The latency between slot `i` and slot `i + 1`: how far the counter ran down.
pub fn sample_delay(samples: &TimerSamples, i: usize) -> (d: u32)
    requires
        samples.wf(),
        i + 1 < NUM_SAMPLES,
        samples.timestamps()[i as int] >= samples.timestamps()[i + 1],
    ensures
        d == samples.timestamps()[i as int] - samples.timestamps()[i + 1],
{
    samples.timestamps[i] - samples.timestamps[i + 1]
}

/// The differences between consecutive stamps telescope: their sum from `lo` to `hi` is
/// the first stamp minus the last.
pub proof fn lemma_delay_sum_telescopes(ts: Seq<u32>, lo: int, hi: int)
    requires
        0 <= lo <= hi < ts.len(),
    ensures
        delay_sum(ts, lo, hi) == ts[lo] - ts[hi],
    decreases hi - lo,
{
    if hi > lo {
        lemma_delay_sum_telescopes(ts, lo, hi - 1);
    }
}

/// The results: the differences between the stamps of slots 1 to `NUM_SAMPLES - 1`
/// (98 of them) are added up and averaged over their number; the average is also
/// printed minus `EXPECTED_LATENCY`.
#[verifier::spinoff_prover]
pub fn summarize_results(samples: &TimerSamples) -> (summary: LatencySummary)
    requires
        samples.wf(),
        counts_down_spec(samples.timestamps()),
    ensures
        summary.sum == delay_sum(samples.timestamps(), 1, NUM_SAMPLES - 1),
        summary.sum == samples.timestamps()[1] - samples.timestamps()[NUM_SAMPLES - 1],
        summary.average == summary.sum / 98,
        summary.versus_expected == summary.average - EXPECTED_LATENCY,
{
    let ghost ts = samples.timestamps@;
    let mut sum: u64 = 0;
    let mut i: usize = 1;
    while i < NUM_SAMPLES - 1
        invariant
            1 <= i <= NUM_SAMPLES - 1,
            ts == samples.timestamps@,
            ts.len() == NUM_SAMPLES,
            counts_down_spec(ts),
            sum == delay_sum(ts, 1, i as int),
        decreases NUM_SAMPLES - 1 - i,
    {
        proof {
            lemma_delay_sum_telescopes(ts, 1, i as int);
            assert(ts[i as int] >= ts[i + 1]);
        }
        let delay = samples.timestamps[i] - samples.timestamps[i + 1];
        sum = sum + delay as u64;
        i = i + 1;
    }
    proof {
        lemma_delay_sum_telescopes(ts, 1, (NUM_SAMPLES - 1) as int);
    }
    let average = sum / ((NUM_SAMPLES - 1 - 1) as u64);
    LatencySummary { sum, average, versus_expected: average as i64 - EXPECTED_LATENCY }
}

} // verus!
