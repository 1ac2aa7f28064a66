//! Bookkeeping of the emulation-overhead benchmark: the latency range of single emulated
//! instructions, the totals of timed runs, and the figures that are reported.
use vstd::prelude::*;
use crate::timer::{elapsed, elapsed_ticks, Platform};

verus! {

/// Number of timed runs of each instruction mix that are added up and averaged.
pub const RUNS_PER_MIX: u64 = 10;

/// The smallest of the samples, `u64::MAX` when there are none.
pub open spec fn seq_min(s: Seq<u64>) -> u64
    decreases s.len(),
{
    if s.len() == 0 {
        u64::MAX
    } else {
        let m = seq_min(s.drop_last());
        if s.last() < m {
            s.last()
        } else {
            m
        }
    }
}

/// The largest of the samples, 0 when there are none.
pub open spec fn seq_max(s: Seq<u64>) -> u64
    decreases s.len(),
{
    if s.len() == 0 {
        0
    } else {
        let m = seq_max(s.drop_last());
        if s.last() > m {
            s.last()
        } else {
            m
        }
    }
}

/// The fastest and slowest cycle counts seen for one emulated instruction.
pub struct LatencyRange {
    min_diff: u64,
    max_diff: u64,
    samples: Ghost<Seq<u64>>,
}

impl LatencyRange {
    /// The cycle counts recorded so far, in order.
    pub closed spec fn samples(&self) -> Seq<u64> {
        self.samples@
    }

    #[verifier::type_invariant]
    spec fn inv(&self) -> bool {
        &&& self.min_diff == seq_min(self.samples@)
        &&& self.max_diff == seq_max(self.samples@)
    }

    /// No samples yet: the minimum starts at `u64::MAX` and the maximum at 0.
    pub fn new() -> (range: Self)
        ensures
            range.samples() == Seq::<u64>::empty(),
    {
        LatencyRange { min_diff: u64::MAX, max_diff: 0, samples: Ghost(Seq::empty()) }
    }

    /// Takes one more measured cycle count into account.
    pub fn record(&mut self, diff: u64)
        ensures
            final(self).samples() == old(self).samples().push(diff),
    {
        proof {
            use_type_invariant(&*self);
        }
        let ghost s = self.samples@.push(diff);
        assert(s.drop_last() =~= self.samples@);
        let new_min = if diff < self.min_diff {
            diff
        } else {
            self.min_diff
        };
        let new_max = if diff > self.max_diff {
            diff
        } else {
            self.max_diff
        };
        *self = LatencyRange { min_diff: new_min, max_diff: new_max, samples: Ghost(s) };
    }

    /// The smallest cycle count recorded (`u64::MAX` before the first).
    pub fn min(&self) -> (m: u64)
        ensures
            m == seq_min(self.samples()),
    {
        proof {
            use_type_invariant(self);
        }
        self.min_diff
    }

    /// The largest cycle count recorded (0 before the first).
    pub fn max(&self) -> (m: u64)
        ensures
            m == seq_max(self.samples()),
    {
        proof {
            use_type_invariant(self);
        }
        self.max_diff
    }
}

/// The minimum and maximum bound every sample, and both are among the samples.
pub proof fn lemma_range_bounds(s: Seq<u64>)
    requires
        s.len() > 0,
    ensures
        forall|i: int| 0 <= i < s.len() ==> seq_min(s) <= #[trigger] s[i] <= seq_max(s),
        exists|i: int| 0 <= i < s.len() && s[i] == seq_min(s),
        exists|i: int| 0 <= i < s.len() && s[i] == seq_max(s),
    decreases s.len(),
{
    let p = s.drop_last();
    if p.len() == 0 {
        assert(s[0] == s.last());
    } else {
        lemma_range_bounds(p);
        assert forall|i: int| 0 <= i < s.len() implies seq_min(s) <= #[trigger] s[i] <= seq_max(s) by {
            if i < p.len() {
                assert(s[i] == p[i]);
            }
        }
        let a = choose|i: int| 0 <= i < p.len() && p[i] == seq_min(p);
        let b = choose|i: int| 0 <= i < p.len() && p[i] == seq_max(p);
        assert(s[a] == p[a]);
        assert(s[b] == p[b]);
        assert(s[s.len() - 1] == s.last());
    }
}

/// Adds the ticks of one timed run to a running total.
pub fn accumulate_run(total: u64, start: u64, end: u64) -> (sum: u64)
    requires
        total + elapsed(start, end) <= u64::MAX,
    ensures
        sum == total + elapsed(start, end),
{
    total + elapsed_ticks(start, end)
}

/// A figure to print: the raw count, and on QEMU (whose clock counts nanoseconds) the
/// same count in whole microseconds.
#[derive(Clone, Copy, Debug, PartialEq, Eq, Structural)]
pub struct TimeReport {
    pub value: u64,
    pub micros: Option<u64>,
}

/// The figure printed for `value` on the given platform.
pub open spec fn report_time_spec(platform: Platform, value: u64) -> TimeReport {
    match platform {
        Platform::Qemu => TimeReport { value, micros: Some(value / 1000) },
        Platform::Megrez => TimeReport { value, micros: None },
    }
}

/// What is printed of a time on the given platform: the value, and on QEMU also the
/// value divided by 1000.
pub fn report_time(platform: Platform, value: u64) -> (report: TimeReport)
    ensures
        report == report_time_spec(platform, value),
        report.value == value,
        platform == Platform::Qemu ==> report.micros == Some(value / 1000),
        platform == Platform::Megrez ==> report.micros == None::<u64>,
{
    match platform {
        Platform::Qemu => TimeReport { value, micros: Some(value / 1000) },
        Platform::Megrez => TimeReport { value, micros: None },
    }
}

/// The average over the runs of one instruction mix, from the total of their ticks: the
/// total divided by the number of runs, and on QEMU that average in microseconds.
pub fn show_ratio_average(platform: Platform, data: u64) -> (report: TimeReport)
    ensures
        report == report_time_spec(platform, data / 10),
        report.value == data / 10,
        platform == Platform::Qemu ==> report.micros == Some(data / 10 / 1000),
        platform == Platform::Megrez ==> report.micros == None::<u64>,
{
    report_time(platform, data / RUNS_PER_MIX)
}

} // verus!
