//! Sums over ranges of samples, and the latency summary the interrupt benchmarks print.
use vstd::prelude::*;

verus! {

/// The sum of `s[lo]`, ..., `s[hi - 1]`.
pub open spec fn sum_range(s: Seq<u64>, lo: int, hi: int) -> int
    decreases hi - lo,
{
    if hi <= lo {
        0
    } else {
        sum_range(s, lo, hi - 1) + s[hi - 1]
    }
}

/// A sum of `hi - lo` samples that are each at most `bound` is at most `(hi - lo) * bound`.
pub proof fn lemma_sum_range_bound(s: Seq<u64>, lo: int, hi: int, bound: int)
    requires
        0 <= lo <= hi <= s.len(),
        forall|i: int| lo <= i < hi ==> s[i] <= bound,
    ensures
        0 <= sum_range(s, lo, hi) <= (hi - lo) * bound,
    decreases hi - lo,
{
    if hi > lo {
        lemma_sum_range_bound(s, lo, hi - 1, bound);
        assert((hi - 1 - lo) * bound + bound == (hi - lo) * bound) by (nonlinear_arith);
    } else {
        assert((hi - lo) * bound == 0) by (nonlinear_arith)
            requires
                hi == lo,
        ;
    }
}

/// What the interrupt benchmarks print at the end: the sum of the latencies taken into
/// account, their average, and the average minus the figure it is compared with.
#[derive(Clone, Copy, Debug, PartialEq, Eq, Structural)]
pub struct LatencySummary {
    pub sum: u64,
    pub average: u64,
    pub versus_expected: i64,
}

/// The average is the whole part of the mean: `count` times it is at most the sum, and
/// one more would pass it.
pub proof fn lemma_average_bounds(sum: int, count: int)
    requires
        sum >= 0,
        count > 0,
    ensures
        (sum / count) * count <= sum < (sum / count + 1) * count,
{
    assert((sum / count) * count <= sum < (sum / count + 1) * count) by (nonlinear_arith)
        requires
            sum >= 0,
            count > 0,
    ;
}

} // verus!
