//! The instruction streams of the emulation-overhead benchmark.
//!
//! The benchmark runs straight-line code built from *units*: a unit of `n` instructions
//! holds one *target* instruction in its middle (after `n / 2 - 1` base instructions) and
//! base instructions everywhere else. The emulated instruction is `bset t2, t3, t4`
//! (encoded as `.insn 0x29de13b3`), which traps to the hypervisor when the hart lacks
//! the Zbs extension; the native one is `add t2, t3, t4`.
//!
//! This module specifies the code that the program's `unroll_unit_str!` and
//! `execute_10_units!` macros write out as inline assembly: the program runs that
//! assembly, not these vectors, which stand for it so that its layout and its share of
//! emulated instructions can be proved.
use vstd::prelude::*;

verus! {

/// One instruction of the benchmark's straight-line code.
#[derive(Clone, Copy, Debug, PartialEq, Eq, Structural)]
pub enum Insn {
    /// `bset t2, t3, t4`, emulated by the hypervisor.
    Emulated,
    /// `add t2, t3, t4`, executed by the hart.
    Native,
}

/// The instruction mixes of the mixed-ratio benchmark, by the share of emulated
/// instructions their labels announce.
#[derive(Clone, Copy, Debug, PartialEq, Eq, Structural)]
pub enum MixRatio {
    OnePercent,
    PointOnePercent,
    PointZeroOnePercent,
    ZeroPercent,
}

/// A unit of `n` instructions: `target` at index `n / 2 - 1`, `base` elsewhere.
pub open spec fn unit_seq(target: Insn, base: Insn, n: nat) -> Seq<Insn> {
    Seq::new(n, |i: int| if i == n / 2 - 1 { target } else { base })
}

/// `k` copies of `s`, one after the other.
pub open spec fn repeat_seq(s: Seq<Insn>, k: nat) -> Seq<Insn>
    decreases k,
{
    if k == 0 {
        Seq::empty()
    } else {
        repeat_seq(s, (k - 1) as nat) + s
    }
}

/// 1 for an emulated instruction, 0 for a native one.
pub open spec fn emulated(x: Insn) -> nat {
    if x == Insn::Emulated {
        1
    } else {
        0
    }
}

/// The number of emulated instructions in `s`.
pub open spec fn emulated_count(s: Seq<Insn>) -> nat
    decreases s.len(),
{
    if s.len() == 0 {
        0
    } else {
        emulated_count(s.drop_last()) + emulated(s.last())
    }
}

/// The unit sizes the benchmark uses.
pub open spec fn valid_unit_size(n: nat) -> bool {
    n == 100 || n == 1000 || n == 10000
}

/// The code of one run of the mixed-ratio benchmark: one million instructions in units.
///
/// * 1 %: units of 100 with one `bset` each;
/// * 0.1 %: units of 1000 with one `bset` each;
/// * 0.01 %: units of 10000 with one `bset` each, so 100 in the million, the share the
///   label names (units of 1000 of `add` with a single `bset` among them would give one
///   in a million instead);
/// * 0 %: units of 1000 of `add` only.
pub open spec fn mixed_run(ratio: MixRatio) -> Seq<Insn> {
    match ratio {
        MixRatio::OnePercent => repeat_seq(unit_seq(Insn::Emulated, Insn::Native, 100), 10000),
        MixRatio::PointOnePercent => repeat_seq(unit_seq(Insn::Emulated, Insn::Native, 1000), 1000),
        MixRatio::PointZeroOnePercent => repeat_seq(unit_seq(Insn::Emulated, Insn::Native, 10000), 100),
        MixRatio::ZeroPercent => repeat_seq(unit_seq(Insn::Native, Insn::Native, 1000), 1000),
    }
}

/// The code of the throughput test of the time benchmark: one million `bset`.
pub open spec fn throughput_run() -> Seq<Insn> {
    repeat_seq(unit_seq(Insn::Emulated, Insn::Emulated, 1000), 1000)
}

/// The number of emulated instructions in a million that each mix's label announces.
pub open spec fn mixed_run_emulated(ratio: MixRatio) -> nat {
    match ratio {
        MixRatio::OnePercent => 10000,
        MixRatio::PointOnePercent => 1000,
        MixRatio::PointZeroOnePercent => 100,
        MixRatio::ZeroPercent => 0,
    }
}

proof fn lemma_count_push(s: Seq<Insn>, x: Insn)
    ensures
        emulated_count(s.push(x)) == emulated_count(s) + emulated(x),
{
    assert(s.push(x).drop_last() =~= s);
}

/// Counting emulated instructions adds up over concatenation.
pub proof fn lemma_count_concat(a: Seq<Insn>, b: Seq<Insn>)
    ensures
        emulated_count(a + b) == emulated_count(a) + emulated_count(b),
    decreases b.len(),
{
    if b.len() == 0 {
        assert(a + b =~= a);
    } else {
        lemma_count_concat(a, b.drop_last());
        assert((a + b).drop_last() =~= a + b.drop_last());
        assert((a + b).last() == b.last());
    }
}

proof fn lemma_count_constant(x: Insn, k: nat)
    ensures
        emulated_count(Seq::new(k, |i: int| x)) == k * emulated(x),
    decreases k,
{
    if k > 0 {
        lemma_count_constant(x, (k - 1) as nat);
        assert(Seq::new(k, |i: int| x).drop_last() =~= Seq::new((k - 1) as nat, |i: int| x));
        assert(k * emulated(x) == (k - 1) * emulated(x) + emulated(x)) by (nonlinear_arith);
    }
}

/// A unit of `n` instructions holds `n` instructions, its target once and `n - 1` bases.
pub proof fn lemma_unit_count(target: Insn, base: Insn, n: nat)
    requires
        n >= 2,
    ensures
        unit_seq(target, base, n).len() == n,
        emulated_count(unit_seq(target, base, n)) == emulated(target) + (n - 1) * emulated(base),
{
    let h = (n / 2 - 1) as nat;
    let left = Seq::new(h, |i: int| base);
    let right = Seq::new((n - h - 1) as nat, |i: int| base);
    assert(unit_seq(target, base, n) =~= left.push(target) + right);
    lemma_count_concat(left.push(target), right);
    lemma_count_push(left, target);
    lemma_count_constant(base, h);
    lemma_count_constant(base, (n - h - 1) as nat);
    assert(h * emulated(base) + (n - h - 1) * emulated(base) == (n - 1) * emulated(base))
        by (nonlinear_arith);
}

/// `k` copies of `s` hold `k` times its length and `k` times its emulated instructions.
pub proof fn lemma_repeat_count(s: Seq<Insn>, k: nat)
    ensures
        repeat_seq(s, k).len() == k * s.len(),
        emulated_count(repeat_seq(s, k)) == k * emulated_count(s),
    decreases k,
{
    if k > 0 {
        lemma_repeat_count(s, (k - 1) as nat);
        lemma_count_concat(repeat_seq(s, (k - 1) as nat), s);
        assert(k * s.len() == (k - 1) * s.len() + s.len()) by (nonlinear_arith);
        assert(k * emulated_count(s) == (k - 1) * emulated_count(s) + emulated_count(s))
            by (nonlinear_arith);
    } else {
        assert(k * s.len() == 0 && k * emulated_count(s) == 0) by (nonlinear_arith)
            requires
                k == 0,
        ;
    }
}

/// Appends one unit to `out`.
fn push_unit(out: &mut Vec<Insn>, target: Insn, base: Insn, n: usize)
    requires
        n >= 2,
        old(out).len() + n <= usize::MAX,
    ensures
        final(out)@ == old(out)@ + unit_seq(target, base, n as nat),
{
    let ghost start = out@;
    let mid = n / 2 - 1;
    let mut i: usize = 0;
    while i < n
        invariant
            n >= 2,
            mid == n / 2 - 1,
            i <= n,
            start.len() + n <= usize::MAX,
            out@ == start + unit_seq(target, base, n as nat).take(i as int),
        decreases n - i,
    {
        let x = if i == mid {
            target
        } else {
            base
        };
        out.push(x);
        i = i + 1;
        assert(out@ =~= start + unit_seq(target, base, n as nat).take(i as int));
    }
    assert(unit_seq(target, base, n as nat).take(n as int) =~= unit_seq(target, base, n as nat));
}

/// Appends `k` units to `out`.
fn push_units(out: &mut Vec<Insn>, target: Insn, base: Insn, n: usize, k: usize)
    requires
        n >= 2,
        old(out).len() + k * n <= usize::MAX,
    ensures
        final(out)@ == old(out)@ + repeat_seq(unit_seq(target, base, n as nat), k as nat),
{
    let ghost start = out@;
    let ghost unit = unit_seq(target, base, n as nat);
    let mut j: usize = 0;
    while j < k
        invariant
            n >= 2,
            j <= k,
            unit == unit_seq(target, base, n as nat),
            start.len() + k * n <= usize::MAX,
            out@ == start + repeat_seq(unit, j as nat),
        decreases k - j,
    {
        proof {
            lemma_repeat_count(unit, j as nat);
            assert(j * n + n <= k * n) by (nonlinear_arith)
                requires
                    j < k,
            ;
        }
        push_unit(out, target, base, n);
        j = j + 1;
        assert(out@ =~= start + repeat_seq(unit, j as nat));
    }
}

/// One unit of `n` instructions: the code that `unroll_unit_str!` writes out, with the
/// target after `n / 2 - 1` base instructions.
pub fn unroll_unit(target: Insn, base: Insn, n: usize) -> (unit: Vec<Insn>)
    requires
        valid_unit_size(n as nat),
    ensures
        unit@ == unit_seq(target, base, n as nat),
        unit@.len() == n,
        unit@[n / 2 - 1] == target,
        forall|i: int| 0 <= i < n && i != n / 2 - 1 ==> unit@[i] == base,
{
    let mut unit: Vec<Insn> = Vec::new();
    push_unit(&mut unit, target, base, n);
    assert(unit@ =~= unit_seq(target, base, n as nat));
    unit
}

/// Ten units of `n` instructions back to back: the code of `execute_10_units!`.
pub fn execute_10_units(target: Insn, base: Insn, n: usize) -> (code: Vec<Insn>)
    requires
        valid_unit_size(n as nat),
    ensures
        code@ == repeat_seq(unit_seq(target, base, n as nat), 10),
{
    let mut code: Vec<Insn> = Vec::new();
    push_units(&mut code, target, base, n, 10);
    assert(code@ =~= repeat_seq(unit_seq(target, base, n as nat), 10));
    code
}

/// The code of one run of the mixed-ratio benchmark with the given mix.
pub fn mixed_ratio_run(ratio: MixRatio) -> (code: Vec<Insn>)
    ensures
        code@ == mixed_run(ratio),
{
    let mut code: Vec<Insn> = Vec::new();
    match ratio {
        MixRatio::OnePercent => {
            push_units(&mut code, Insn::Emulated, Insn::Native, 100, 10000);
        },
        MixRatio::PointOnePercent => {
            push_units(&mut code, Insn::Emulated, Insn::Native, 1000, 1000);
        },
        MixRatio::PointZeroOnePercent => {
            push_units(&mut code, Insn::Emulated, Insn::Native, 10000, 100);
        },
        MixRatio::ZeroPercent => {
            push_units(&mut code, Insn::Native, Insn::Native, 1000, 1000);
        },
    }
    assert(code@ =~= mixed_run(ratio));
    code
}

/// The code of the throughput test: one million emulated instructions.
pub fn throughput_code() -> (code: Vec<Insn>)
    ensures
        code@ == throughput_run(),
{
    let mut code: Vec<Insn> = Vec::new();
    push_units(&mut code, Insn::Emulated, Insn::Emulated, 1000, 1000);
    assert(code@ =~= throughput_run());
    code
}

/// Every run of the mixed-ratio benchmark executes one million instructions, and holds
/// the share of emulated instructions its label announces: 10000, 1000, 100 and 0 for the
/// 1 %, 0.1 %, 0.01 % and 0 % mixes.
pub proof fn lemma_mixed_run_counts(ratio: MixRatio)
    ensures
        mixed_run(ratio).len() == 1_000_000,
        emulated_count(mixed_run(ratio)) == mixed_run_emulated(ratio),
{
    let e100 = unit_seq(Insn::Emulated, Insn::Native, 100);
    let e1000 = unit_seq(Insn::Emulated, Insn::Native, 1000);
    let e10000 = unit_seq(Insn::Emulated, Insn::Native, 10000);
    let n1000 = unit_seq(Insn::Native, Insn::Native, 1000);
    lemma_unit_count(Insn::Emulated, Insn::Native, 100);
    lemma_unit_count(Insn::Emulated, Insn::Native, 1000);
    lemma_unit_count(Insn::Emulated, Insn::Native, 10000);
    lemma_unit_count(Insn::Native, Insn::Native, 1000);
    match ratio {
        MixRatio::OnePercent => {
            lemma_repeat_count(e100, 10000);
        },
        MixRatio::PointOnePercent => {
            lemma_repeat_count(e1000, 1000);
        },
        MixRatio::PointZeroOnePercent => {
            lemma_repeat_count(e10000, 100);
        },
        MixRatio::ZeroPercent => {
            lemma_repeat_count(n1000, 1000);
        },
    }
}

/// The throughput test executes one million instructions, all of them emulated.
pub proof fn lemma_throughput_counts()
    ensures
        throughput_run().len() == 1_000_000,
        emulated_count(throughput_run()) == 1_000_000,
{
    lemma_unit_count(Insn::Emulated, Insn::Emulated, 1000);
    lemma_repeat_count(unit_seq(Insn::Emulated, Insn::Emulated, 1000), 1000);
}

} // verus!
