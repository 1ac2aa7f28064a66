//! The schedule of the mixed-ratio benchmark, as a step function: from the state and the
//! answer to the last action, the next action.
//!
//! The mixes are measured in the order 1 %, 0.1 %, 0.01 %, 0 %. Each is run
//! `RUNS_PER_MIX` (ten) times; a run reads the clock, executes the mix's million
//! instructions, and reads the clock again; before each run of the 0 % mix the counter
//! is restarted. After its ten runs, a mix's average is reported: the sum of the ticks of
//! its own ten runs, divided by ten.
use vstd::prelude::*;
use crate::emulation::{accumulate_run, report_time_spec, show_ratio_average, TimeReport};
use crate::timer::{elapsed, Platform};
use crate::workload::MixRatio;

verus! {

/// Number of steps of the whole schedule: three blocks of 31 and one of 41.
pub const SCHEDULE_LEN: usize = 134;

/// One step of the schedule.
#[derive(Clone, Copy, Debug, PartialEq, Eq, Structural)]
pub enum ScheduledStep {
    /// Restart the down-counter (before each run of the 0 % mix).
    ResetCounter,
    /// Read the clock before a run.
    ReadClockStart,
    /// Execute one run of the mix.
    RunMix(MixRatio),
    /// Read the clock after a run.
    ReadClockEnd,
    /// Report the mix's average.
    Report(MixRatio),
    /// Nothing left to do.
    Finished,
}

/// What the benchmark asks of the hart.
#[derive(Clone, Copy, Debug, PartialEq, Eq, Structural)]
pub enum MixedRatioAction {
    /// Restart the down-counter (store [`crate::timer::reset_counter`]).
    ResetCounter,
    /// Read the clock and answer with [`MixedRatioEvent::Clock`].
    ReadClock,
    /// Execute one run of the mix's code ([`crate::workload::mixed_run`]).
    RunMix(MixRatio),
    /// Print the mix's average under its label ([`ratio_label`]).
    Report(MixRatio, TimeReport),
    /// The benchmark is over.
    Finished,
}

/// The answer to the last action.
#[derive(Clone, Copy, Debug, PartialEq, Eq, Structural)]
pub enum MixedRatioEvent {
    /// The action was carried out (or nothing was asked yet).
    Ack,
    /// The clock read.
    Clock(u64),
}

/// The mix of the `m`-th block.
pub open spec fn mix_at(m: int) -> MixRatio {
    if m == 0 {
        MixRatio::OnePercent
    } else if m == 1 {
        MixRatio::PointOnePercent
    } else if m == 2 {
        MixRatio::PointZeroOnePercent
    } else {
        MixRatio::ZeroPercent
    }
}

/// The step at position `pos` of the schedule.
pub open spec fn schedule(pos: int) -> ScheduledStep {
    if pos < 0 || pos >= SCHEDULE_LEN {
        ScheduledStep::Finished
    } else if pos < 93 {
        let m = pos / 31;
        let j = pos % 31;
        if j == 30 {
            ScheduledStep::Report(mix_at(m))
        } else if j % 3 == 0 {
            ScheduledStep::ReadClockStart
        } else if j % 3 == 1 {
            ScheduledStep::RunMix(mix_at(m))
        } else {
            ScheduledStep::ReadClockEnd
        }
    } else {
        let j = pos - 93;
        if j == 40 {
            ScheduledStep::Report(MixRatio::ZeroPercent)
        } else if j % 4 == 0 {
            ScheduledStep::ResetCounter
        } else if j % 4 == 1 {
            ScheduledStep::ReadClockStart
        } else if j % 4 == 2 {
            ScheduledStep::RunMix(MixRatio::ZeroPercent)
        } else {
            ScheduledStep::ReadClockEnd
        }
    }
}

/// Whether action `a` carries out `step`.
pub open spec fn carries_out(a: MixedRatioAction, step: ScheduledStep) -> bool {
    match step {
        ScheduledStep::ResetCounter => a is ResetCounter,
        ScheduledStep::ReadClockStart => a is ReadClock,
        ScheduledStep::ReadClockEnd => a is ReadClock,
        ScheduledStep::RunMix(m) => a == MixedRatioAction::RunMix(m),
        ScheduledStep::Report(m) => a matches MixedRatioAction::Report(mm, _) && mm == m,
        ScheduledStep::Finished => a is Finished,
    }
}

/// The action that carries out a step, with the report it prints when it is one.
pub open spec fn step_action(step: ScheduledStep, report: TimeReport) -> MixedRatioAction {
    match step {
        ScheduledStep::ResetCounter => MixedRatioAction::ResetCounter,
        ScheduledStep::ReadClockStart => MixedRatioAction::ReadClock,
        ScheduledStep::ReadClockEnd => MixedRatioAction::ReadClock,
        ScheduledStep::RunMix(m) => MixedRatioAction::RunMix(m),
        ScheduledStep::Report(m) => MixedRatioAction::Report(m, report),
        ScheduledStep::Finished => MixedRatioAction::Finished,
    }
}

/// The benchmark's state: the position of the next step, the clock read before the
/// current run, and the ticks of the runs of the current mix so far.
pub struct MixedRatioView {
    pub pos: nat,
    pub start: u64,
    pub runs: Seq<u64>,
}

/// The sum of the ticks of the runs.
pub open spec fn sum_runs(runs: Seq<u64>) -> int
    decreases runs.len(),
{
    if runs.len() == 0 {
        0
    } else {
        sum_runs(runs.drop_last()) + runs.last()
    }
}

/// The number of runs of the current mix whose ticks are in, when `pos` is the next step.
pub open spec fn runs_in(pos: int) -> int {
    if pos <= 0 || pos > SCHEDULE_LEN {
        0
    } else if pos - 1 < 93 {
        let j = (pos - 1) % 31;
        if j == 30 {
            0
        } else {
            j / 3
        }
    } else {
        let j = pos - 1 - 93;
        if j == 40 {
            0
        } else {
            j / 4
        }
    }
}

/// A state the schedule can be in.
pub open spec fn valid_view(v: MixedRatioView) -> bool {
    &&& v.pos <= SCHEDULE_LEN
    &&& v.runs.len() == runs_in(v.pos as int)
}

/// Whether the last action was a clock read, so the answer must be the clock.
pub open spec fn awaits_clock(v: MixedRatioView) -> bool {
    v.pos > 0 && (schedule(v.pos - 1) == ScheduledStep::ReadClockStart || schedule(v.pos - 1)
        == ScheduledStep::ReadClockEnd)
}

/// Whether `e` answers the last action: the clock after a clock read, else an
/// acknowledgement.
pub open spec fn answers(v: MixedRatioView, e: MixedRatioEvent) -> bool {
    if awaits_clock(v) {
        e is Clock
    } else {
        e is Ack
    }
}

/// Whether taking `e` in keeps the total of the mix's ticks within 64 bits.
pub open spec fn fits(v: MixedRatioView, e: MixedRatioEvent) -> bool {
    match e {
        MixedRatioEvent::Clock(t) => v.pos > 0 && schedule(v.pos - 1) == ScheduledStep::ReadClockEnd
            ==> sum_runs(v.runs) + elapsed(v.start, t) <= u64::MAX,
        MixedRatioEvent::Ack => true,
    }
}

/// The state once the answer to the last action is taken in: the start clock after the
/// read before a run, the run's ticks after the read after it.
pub open spec fn absorb(v: MixedRatioView, e: MixedRatioEvent) -> MixedRatioView {
    if v.pos > 0 {
        match (schedule(v.pos - 1), e) {
            (ScheduledStep::ReadClockStart, MixedRatioEvent::Clock(t)) => MixedRatioView {
                pos: v.pos,
                start: t,
                runs: v.runs,
            },
            (ScheduledStep::ReadClockEnd, MixedRatioEvent::Clock(t)) => MixedRatioView {
                pos: v.pos,
                start: v.start,
                runs: v.runs.push(elapsed(v.start, t) as u64),
            },
            _ => v,
        }
    } else {
        v
    }
}

/// One step: take in the answer, then carry out the step at the current position. A
/// report prints the average of the runs taken in and starts the next mix afresh.
pub open spec fn step_spec(v: MixedRatioView, platform: Platform, e: MixedRatioEvent) -> (
    MixedRatioView,
    MixedRatioAction,
) {
    let a = absorb(v, e);
    let step = schedule(v.pos as int);
    let report = report_time_spec(platform, (sum_runs(a.runs) / 10) as u64);
    let next = match step {
        ScheduledStep::Finished => a,
        ScheduledStep::Report(_) => MixedRatioView { pos: v.pos + 1, start: a.start, runs: Seq::empty() },
        _ => MixedRatioView { pos: v.pos + 1, start: a.start, runs: a.runs },
    };
    (next, step_action(step, report))
}

/// The schedule's position and the runs taken in so far.
pub struct MixedRatioState {
    pos: usize,
    start: u64,
    total: u64,
    runs: Ghost<Seq<u64>>,
}

impl MixedRatioState {
    /// The state as the schedule sees it.
    pub closed spec fn view(&self) -> MixedRatioView {
        MixedRatioView { pos: self.pos as nat, start: self.start, runs: self.runs@ }
    }

    /// A state the schedule can be in, with the total of the runs kept.
    pub closed spec fn wf(&self) -> bool {
        &&& valid_view(self.view())
        &&& self.total == sum_runs(self.runs@)
    }

    /// Before the first step.
    pub fn new() -> (state: Self)
        ensures
            state.wf(),
            state.view() == (MixedRatioView { pos: 0, start: 0, runs: Seq::empty() }),
    {
        MixedRatioState { pos: 0, start: 0, total: 0, runs: Ghost(Seq::empty()) }
    }
}

/// The step at position `pos`.
pub fn scheduled_step(pos: usize) -> (step: ScheduledStep)
    ensures
        step == schedule(pos as int),
{
    if pos >= SCHEDULE_LEN {
        ScheduledStep::Finished
    } else if pos < 93 {
        let m = pos / 31;
        let j = pos % 31;
        let mix = if m == 0 {
            MixRatio::OnePercent
        } else if m == 1 {
            MixRatio::PointOnePercent
        } else {
            MixRatio::PointZeroOnePercent
        };
        if j == 30 {
            ScheduledStep::Report(mix)
        } else if j % 3 == 0 {
            ScheduledStep::ReadClockStart
        } else if j % 3 == 1 {
            ScheduledStep::RunMix(mix)
        } else {
            ScheduledStep::ReadClockEnd
        }
    } else {
        let j = pos - 93;
        if j == 40 {
            ScheduledStep::Report(MixRatio::ZeroPercent)
        } else if j % 4 == 0 {
            ScheduledStep::ResetCounter
        } else if j % 4 == 1 {
            ScheduledStep::ReadClockStart
        } else if j % 4 == 2 {
            ScheduledStep::RunMix(MixRatio::ZeroPercent)
        } else {
            ScheduledStep::ReadClockEnd
        }
    }
}

/// Whether [`mixed_ratio_step`] takes `event` in this state: it answers the last action,
/// and the mix's total of ticks stays within 64 bits.
pub fn accepts(state: &MixedRatioState, event: MixedRatioEvent) -> (ok: bool)
    requires
        state.wf(),
    ensures
        ok == (answers(state.view(), event) && fits(state.view(), event)),
{
    let prev = if state.pos > 0 {
        scheduled_step(state.pos - 1)
    } else {
        ScheduledStep::Finished
    };
    let clock = prev == ScheduledStep::ReadClockStart || prev == ScheduledStep::ReadClockEnd;
    match event {
        MixedRatioEvent::Ack => !clock,
        MixedRatioEvent::Clock(t) => {
            if !clock {
                false
            } else if prev == ScheduledStep::ReadClockEnd {
                let e = crate::timer::elapsed_ticks(state.start, t);
                state.total <= u64::MAX - e
            } else {
                true
            }
        },
    }
}

proof fn lemma_sum_nonneg(runs: Seq<u64>)
    ensures
        sum_runs(runs) >= 0,
    decreases runs.len(),
{
    if runs.len() > 0 {
        lemma_sum_nonneg(runs.drop_last());
    }
}

proof fn lemma_sum_push(runs: Seq<u64>, x: u64)
    ensures
        sum_runs(runs.push(x)) == sum_runs(runs) + x,
{
    assert(runs.push(x).drop_last() =~= runs);
}

/// Takes in the answer to the last action and gives the next action of the schedule.
pub fn mixed_ratio_step(
    state: &mut MixedRatioState,
    platform: Platform,
    event: MixedRatioEvent,
) -> (action: MixedRatioAction)
    requires
        old(state).wf(),
        answers(old(state).view(), event),
        fits(old(state).view(), event),
    ensures
        final(state).wf(),
        (final(state).view(), action) == step_spec(old(state).view(), platform, event),
{
    let ghost v = state.view();
    let prev = if state.pos > 0 {
        scheduled_step(state.pos - 1)
    } else {
        ScheduledStep::Finished
    };
    match (prev, event) {
        (ScheduledStep::ReadClockStart, MixedRatioEvent::Clock(t)) => {
            state.start = t;
        },
        (ScheduledStep::ReadClockEnd, MixedRatioEvent::Clock(t)) => {
            let ghost old_runs = state.runs@;
            let ghost e = elapsed(state.start, t) as u64;
            state.total = accumulate_run(state.total, state.start, t);
            state.runs = Ghost(old_runs.push(e));
            proof {
                lemma_sum_push(old_runs, e);
            }
        },
        _ => {},
    }
    assert(state.view() == absorb(v, event));
    let step = scheduled_step(state.pos);
    match step {
        ScheduledStep::Finished => MixedRatioAction::Finished,
        ScheduledStep::Report(m) => {
            let report = show_ratio_average(platform, state.total);
            state.total = 0;
            state.runs = Ghost(Seq::empty());
            state.pos = state.pos + 1;
            MixedRatioAction::Report(m, report)
        },
        ScheduledStep::ResetCounter => {
            state.pos = state.pos + 1;
            MixedRatioAction::ResetCounter
        },
        ScheduledStep::ReadClockStart => {
            state.pos = state.pos + 1;
            MixedRatioAction::ReadClock
        },
        ScheduledStep::ReadClockEnd => {
            state.pos = state.pos + 1;
            MixedRatioAction::ReadClock
        },
        ScheduledStep::RunMix(m) => {
            state.pos = state.pos + 1;
            MixedRatioAction::RunMix(m)
        },
    }
}

/// Each step carries out the step of the schedule at the current position, and moves to
/// the next position (staying at the end once the schedule is done); the state stays one
/// the schedule can be in.
pub proof fn lemma_step_follows_schedule(v: MixedRatioView, platform: Platform, e: MixedRatioEvent)
    requires
        valid_view(v),
        answers(v, e),
        fits(v, e),
    ensures
        carries_out(step_spec(v, platform, e).1, schedule(v.pos as int)),
        step_spec(v, platform, e).0.pos == if v.pos < SCHEDULE_LEN {
            v.pos + 1
        } else {
            v.pos
        },
        valid_view(step_spec(v, platform, e).0),
{
}

/// A report comes after exactly ten runs of its mix have been taken in, prints the
/// average of their ticks (their sum divided by ten), and the next mix starts with no
/// runs.
pub proof fn lemma_report_averages_ten_runs(
    v: MixedRatioView,
    platform: Platform,
    e: MixedRatioEvent,
    m: MixRatio,
)
    requires
        valid_view(v),
        answers(v, e),
        fits(v, e),
        schedule(v.pos as int) == ScheduledStep::Report(m),
    ensures
        absorb(v, e).runs.len() == 10,
        step_spec(v, platform, e).1 == MixedRatioAction::Report(
            m,
            report_time_spec(platform, (sum_runs(absorb(v, e).runs) / 10) as u64),
        ),
        step_spec(v, platform, e).0.runs == Seq::<u64>::empty(),
{
}

/// The clock read before a run becomes the run's start, whatever the platform and
/// whatever was read before.
pub proof fn lemma_start_is_own_read(v: MixedRatioView, platform: Platform, t: u64)
    requires
        valid_view(v),
        v.pos > 0,
        schedule(v.pos - 1) == ScheduledStep::ReadClockStart,
    ensures
        step_spec(v, platform, MixedRatioEvent::Clock(t)).0.start == t,
        step_spec(v, platform, MixedRatioEvent::Clock(t)).0.runs == v.runs,
        step_spec(v, platform, MixedRatioEvent::Clock(t)).1 is RunMix,
{
}

/// The clock read after a run adds the ticks since the run's start (saturating at zero)
/// to the mix's runs; when the step is the mix's report, the report's value is the
/// whole part of the mean of the ten runs, this one included.
pub proof fn lemma_end_adds_run(v: MixedRatioView, platform: Platform, t: u64)
    requires
        valid_view(v),
        v.pos > 0,
        schedule(v.pos - 1) == ScheduledStep::ReadClockEnd,
        sum_runs(v.runs) + elapsed(v.start, t) <= u64::MAX,
    ensures
        ({
            let (next, action) = step_spec(v, platform, MixedRatioEvent::Clock(t));
            let total = sum_runs(v.runs) + elapsed(v.start, t);
            &&& v.runs.len() < 10
            &&& (action is Report ==> v.runs.len() == 9 && next.runs.len() == 0 && (action matches MixedRatioAction::Report(_, r) && r.value * 10 <= total < (r.value + 1) * 10))
            &&& (!(action is Report) ==> next.runs == v.runs.push((if v.start <= t { t - v.start } else { 0 }) as u64))
        }),
{
    lemma_sum_nonneg(v.runs);
    lemma_sum_push(v.runs, elapsed(v.start, t) as u64);
    let total = sum_runs(v.runs) + elapsed(v.start, t);
    assert((total / 10) * 10 <= total < (total / 10 + 1) * 10) by (nonlinear_arith)
        requires
            total >= 0,
    ;
    let a = absorb(v, MixedRatioEvent::Clock(t));
    assert(a.runs == v.runs.push(elapsed(v.start, t) as u64));
    assert(sum_runs(a.runs) == total);
}

/// A run's ticks depend on its own two clock reads only: from the read before a run,
/// through the run, to the read after it, the ticks taken in are the end read minus the
/// start read (saturating), whatever start the state held before.
pub proof fn lemma_run_ticks_own_reads(
    v: MixedRatioView,
    platform: Platform,
    t_start: u64,
    t_end: u64,
)
    requires
        valid_view(v),
        v.pos > 0,
        schedule(v.pos - 1) == ScheduledStep::ReadClockStart,
        sum_runs(v.runs) + elapsed(t_start, t_end) <= u64::MAX,
    ensures
        ({
            let s1 = step_spec(v, platform, MixedRatioEvent::Clock(t_start)).0;
            let s2 = step_spec(s1, platform, MixedRatioEvent::Ack).0;
            let (s3, a3) = step_spec(s2, platform, MixedRatioEvent::Clock(t_end));
            let total = sum_runs(v.runs) + (if t_start <= t_end { t_end - t_start } else { 0 });
            &&& answers(s1, MixedRatioEvent::Ack)
            &&& answers(s2, MixedRatioEvent::Clock(t_end))
            &&& (a3 is Report ==> (a3 matches MixedRatioAction::Report(_, r) && r.value * 10 <= total < (r.value + 1) * 10))
            &&& (!(a3 is Report) ==> s3.runs == v.runs.push((if t_start <= t_end { t_end - t_start } else { 0 }) as u64))
        }),
{
    let s1 = step_spec(v, platform, MixedRatioEvent::Clock(t_start)).0;
    lemma_step_follows_schedule(v, platform, MixedRatioEvent::Clock(t_start));
    let s2 = step_spec(s1, platform, MixedRatioEvent::Ack).0;
    lemma_step_follows_schedule(s1, platform, MixedRatioEvent::Ack);
    assert(schedule(s2.pos - 1) == ScheduledStep::ReadClockEnd);
    lemma_end_adds_run(s2, platform, t_end);
}

/// The platform only changes how a report is printed: the state after a step, and every
/// action but a report's micro-seconds, are the same on QEMU and on the Megrez.
pub proof fn lemma_platform_only_changes_report(v: MixedRatioView, e: MixedRatioEvent)
    ensures
        step_spec(v, Platform::Qemu, e).0 == step_spec(v, Platform::Megrez, e).0,
        !(step_spec(v, Platform::Qemu, e).1 is Report) ==> step_spec(v, Platform::Qemu, e).1
            == step_spec(v, Platform::Megrez, e).1,
        step_spec(v, Platform::Qemu, e).1 is Report <==> step_spec(v, Platform::Megrez, e).1 is Report,
        step_spec(v, Platform::Qemu, e).1 matches MixedRatioAction::Report(m, r) ==> (
            step_spec(v, Platform::Megrez, e).1 == MixedRatioAction::Report(m, TimeReport { value: r.value, micros: None })
            && r.micros == Some(r.value / 1000)),
{
}

/// Whether every event answers the action before it, from state `v` on.
pub open spec fn valid_events(v: MixedRatioView, platform: Platform, es: Seq<MixedRatioEvent>) -> bool
    decreases es.len(),
{
    if es.len() == 0 {
        true
    } else {
        &&& answers(v, es[0])
        &&& fits(v, es[0])
        &&& valid_events(step_spec(v, platform, es[0]).0, platform, es.drop_first())
    }
}

/// The actions given in answer to the events, from state `v` on.
pub open spec fn trace(v: MixedRatioView, platform: Platform, es: Seq<MixedRatioEvent>) -> Seq<
    MixedRatioAction,
>
    decreases es.len(),
{
    if es.len() == 0 {
        Seq::empty()
    } else {
        seq![step_spec(v, platform, es[0]).1] + trace(
            step_spec(v, platform, es[0]).0,
            platform,
            es.drop_first(),
        )
    }
}

/// From any state the schedule can be in, the actions follow the schedule from its
/// position on, one step per event.
pub proof fn lemma_trace_follows_schedule(
    v: MixedRatioView,
    platform: Platform,
    es: Seq<MixedRatioEvent>,
)
    requires
        valid_view(v),
        valid_events(v, platform, es),
    ensures
        trace(v, platform, es).len() == es.len(),
        forall|i: int|
            0 <= i < es.len() ==> carries_out(
                #[trigger] trace(v, platform, es)[i],
                schedule(v.pos + i),
            ),
    decreases es.len(),
{
    if es.len() > 0 {
        lemma_step_follows_schedule(v, platform, es[0]);
        let next = step_spec(v, platform, es[0]).0;
        lemma_trace_follows_schedule(next, platform, es.drop_first());
        assert forall|i: int| 0 <= i < es.len() implies carries_out(
            #[trigger] trace(v, platform, es)[i],
            schedule(v.pos + i),
        ) by {
            if i > 0 {
                assert(trace(v, platform, es)[i] == trace(next, platform, es.drop_first())[i - 1]);
                if v.pos >= SCHEDULE_LEN {
                    assert(schedule(next.pos + i - 1) == ScheduledStep::Finished);
                    assert(schedule(v.pos + i) == ScheduledStep::Finished);
                }
            }
        }
    }
}

/// The whole benchmark: from the first step, the actions are the schedule, in order,
/// whatever the clock reads; after its last step nothing is left to do.
pub proof fn lemma_benchmark_schedule(platform: Platform, es: Seq<MixedRatioEvent>)
    requires
        valid_events(MixedRatioView { pos: 0, start: 0, runs: Seq::empty() }, platform, es),
    ensures
        forall|i: int|
            0 <= i < es.len() ==> carries_out(
                #[trigger] trace(MixedRatioView { pos: 0, start: 0, runs: Seq::empty() }, platform, es)[i],
                schedule(i),
            ),
{
    lemma_trace_follows_schedule(MixedRatioView { pos: 0, start: 0, runs: Seq::empty() }, platform, es);
}

/// The schedule's blocks: for mix `m` (1 %, 0.1 %, 0.01 %, then 0 %) and run `r` of ten,
/// the clock is read, the mix runs, the clock is read again, with the counter restarted
/// first for the 0 % mix; after the ten runs, the mix is reported.
pub proof fn lemma_schedule_blocks(m: int, r: int)
    requires
        0 <= m < 4,
        0 <= r < 10,
    ensures
        m < 3 ==> {
            &&& schedule(31 * m + 3 * r) == ScheduledStep::ReadClockStart
            &&& schedule(31 * m + 3 * r + 1) == ScheduledStep::RunMix(mix_at(m))
            &&& schedule(31 * m + 3 * r + 2) == ScheduledStep::ReadClockEnd
            &&& schedule(31 * m + 30) == ScheduledStep::Report(mix_at(m))
        },
        m == 3 ==> {
            &&& schedule(93 + 4 * r) == ScheduledStep::ResetCounter
            &&& schedule(93 + 4 * r + 1) == ScheduledStep::ReadClockStart
            &&& schedule(93 + 4 * r + 2) == ScheduledStep::RunMix(MixRatio::ZeroPercent)
            &&& schedule(93 + 4 * r + 3) == ScheduledStep::ReadClockEnd
            &&& schedule(133) == ScheduledStep::Report(MixRatio::ZeroPercent)
        },
        schedule(SCHEDULE_LEN as int) == ScheduledStep::Finished,
{
}

/// The clock value an answer carries (zero for an acknowledgement).
pub open spec fn clock_of(e: MixedRatioEvent) -> u64 {
    match e {
        MixedRatioEvent::Clock(t) => t,
        MixedRatioEvent::Ack => 0,
    }
}

/// The block (0 to 3: 1 %, 0.1 %, 0.01 %, 0 %) of schedule position `q`.
pub open spec fn block_of(q: int) -> int {
    if q < 93 {
        q / 31
    } else {
        3
    }
}

/// The index of the event that answers the clock read before run `r` of block `m`: the
/// event answering action `k` is the `k + 1`-th.
pub open spec fn start_event(m: int, r: int) -> int {
    if m < 3 {
        31 * m + 3 * r + 1
    } else {
        93 + 4 * r + 2
    }
}

/// The index of the event that answers the clock read after run `r` of block `m`.
pub open spec fn end_event(m: int, r: int) -> int {
    start_event(m, r) + 2
}

/// The ticks of run `r` of block `m`: its end read minus its start read, saturating.
pub open spec fn run_ticks(es: Seq<MixedRatioEvent>, m: int, r: int) -> u64 {
    let s = clock_of(es[start_event(m, r)]);
    let e = clock_of(es[end_event(m, r)]);
    (if s <= e {
        e - s
    } else {
        0
    }) as u64
}

/// The position of block `m`'s report.
pub open spec fn report_pos(m: int) -> int {
    if m < 3 {
        31 * m + 30
    } else {
        133
    }
}

/// The state after the first `n` events, from `v`.
pub open spec fn states(
    v: MixedRatioView,
    platform: Platform,
    es: Seq<MixedRatioEvent>,
    n: nat,
) -> MixedRatioView
    decreases n,
{
    if n == 0 {
        v
    } else {
        step_spec(states(v, platform, es, (n - 1) as nat), platform, es[n - 1]).0
    }
}

/// Whether each of the first `n` events answers the action before it and keeps the
/// totals within 64 bits.
pub open spec fn valid_upto(
    v: MixedRatioView,
    platform: Platform,
    es: Seq<MixedRatioEvent>,
    n: nat,
) -> bool {
    forall|i: nat|
        i < n ==> answers(#[trigger] states(v, platform, es, i), es[i as int]) && fits(
            states(v, platform, es, i),
            es[i as int],
        )
}

/// The view the benchmark is in after `n` events: the runs of the current mix are those
/// whose two reads have come in, and within a run the start is its start read.
spec fn inv_at(es: Seq<MixedRatioEvent>, n: int, s: MixedRatioView) -> bool {
    &&& s.pos == n
    &&& s.runs == Seq::new(runs_in(n) as nat, |r: int| run_ticks(es, block_of(n - 1), r))
    &&& (n >= 2 && schedule(n - 1) is RunMix ==> s.start == clock_of(es[n - 1]))
    &&& (n >= 3 && schedule(n - 1) == ScheduledStep::ReadClockEnd ==> s.start == clock_of(es[n - 2]))
}

proof fn lemma_inv_step(
    es: Seq<MixedRatioEvent>,
    platform: Platform,
    n: int,
    s: MixedRatioView,
)
    requires
        0 <= n < SCHEDULE_LEN,
        n < es.len(),
        inv_at(es, n, s),
        answers(s, es[n]),
        fits(s, es[n]),
    ensures
        inv_at(es, n + 1, step_spec(s, platform, es[n]).0),
        schedule(n) matches ScheduledStep::Report(m) ==> step_spec(s, platform, es[n]).1
            == MixedRatioAction::Report(
            m,
            report_time_spec(
                platform,
                (sum_runs(Seq::new(10, |r: int| run_ticks(es, block_of(n), r))) / 10) as u64,
            ),
        ),
{
    let e = es[n];
    let a = absorb(s, e);
    let next = step_spec(s, platform, e).0;
    if n >= 1 && schedule(n - 1) == ScheduledStep::ReadClockEnd {
        let m = block_of(n - 1);
        let r = runs_in(n);
        assert(n >= 3);
        assert(start_event(m, r) == n - 2 && end_event(m, r) == n);
        assert(a.runs =~= Seq::new((runs_in(n) + 1) as nat, |i: int| run_ticks(es, m, i)));
        if schedule(n) is Report {
            assert(block_of(n) == m);
            assert(runs_in(n) + 1 == 10);
            assert(runs_in(n + 1) == 0);
            assert(next.runs =~= Seq::new(runs_in(n + 1) as nat, |i: int| run_ticks(es, block_of(n), i)));
        } else {
            assert(block_of(n) == m);
            assert(runs_in(n + 1) == runs_in(n) + 1);
            assert(next.runs =~= Seq::new(runs_in(n + 1) as nat, |i: int| run_ticks(es, block_of(n), i)));
        }
    } else if n >= 1 && schedule(n - 1) == ScheduledStep::ReadClockStart {
        assert(a.runs == s.runs);
        assert(runs_in(n + 1) == runs_in(n));
        assert(block_of(n) == block_of(n - 1));
        assert(next.runs =~= Seq::new(runs_in(n + 1) as nat, |i: int| run_ticks(es, block_of(n), i)));
    } else {
        assert(a == s);
        if schedule(n) is Report {
            assert(false);
        } else if n >= 1 && schedule(n - 1) is Report {
            assert(runs_in(n + 1) == 0);
            assert(next.runs =~= Seq::new(runs_in(n + 1) as nat, |i: int| run_ticks(es, block_of(n), i)));
        } else if n == 0 {
            assert(next.runs =~= Seq::new(runs_in(n + 1) as nat, |i: int| run_ticks(es, block_of(n), i)));
        } else {
            assert(runs_in(n + 1) == runs_in(n));
            assert(block_of(n) == block_of(n - 1));
            assert(next.runs =~= Seq::new(runs_in(n + 1) as nat, |i: int| run_ticks(es, block_of(n), i)));
        }
    }
}

/// The state before the first step.
pub open spec fn initial_view() -> MixedRatioView {
    MixedRatioView { pos: 0, start: 0, runs: Seq::empty() }
}

proof fn lemma_states_inv(platform: Platform, es: Seq<MixedRatioEvent>, n: nat)
    requires
        n <= SCHEDULE_LEN,
        n <= es.len(),
        valid_upto(initial_view(), platform, es, n),
    ensures
        inv_at(es, n as int, states(initial_view(), platform, es, n)),
    decreases n,
{
    if n == 0 {
        assert(initial_view().runs =~= Seq::new(runs_in(0) as nat, |r: int| run_ticks(es, block_of(-1), r)));
    } else {
        let k = (n - 1) as nat;
        assert(valid_upto(initial_view(), platform, es, k));
        lemma_states_inv(platform, es, k);
        let s = states(initial_view(), platform, es, k);
        assert(answers(s, es[k as int]) && fits(s, es[k as int]));
        lemma_inv_step(es, platform, k as int, s);
    }
}

/// Each mix's report is the average of its own ten runs: with the events of a whole
/// benchmark answering its actions from the first step on, the action at the report of
/// block `m` (1 %, 0.1 %, 0.01 %, 0 %) prints the sum, over the block's ten runs, of the
/// run's end read minus its start read (saturating), divided by ten; what was read in
/// other runs or other blocks, and the platform, do not enter.
pub proof fn lemma_report_is_mean_of_own_runs(platform: Platform, es: Seq<MixedRatioEvent>, m: int)
    requires
        0 <= m < 4,
        report_pos(m) < es.len(),
        valid_upto(initial_view(), platform, es, (report_pos(m) + 1) as nat),
    ensures
        step_spec(
            states(initial_view(), platform, es, report_pos(m) as nat),
            platform,
            es[report_pos(m)],
        ).1 == MixedRatioAction::Report(
            mix_at(m),
            report_time_spec(
                platform,
                (sum_runs(Seq::new(10, |r: int| run_ticks(es, m, r))) / 10) as u64,
            ),
        ),
{
    let n = report_pos(m) as nat;
    assert(valid_upto(initial_view(), platform, es, n));
    lemma_states_inv(platform, es, n);
    let s = states(initial_view(), platform, es, n);
    assert(answers(s, es[n as int]) && fits(s, es[n as int]));
    lemma_inv_step(es, platform, n as int, s);
    assert(schedule(n as int) == ScheduledStep::Report(mix_at(m)));
    assert(block_of(n as int) == m);
}

/// The label a mix's average is printed under.
pub fn ratio_label(ratio: MixRatio) -> (label: &'static str)
    ensures
        ratio == MixRatio::OnePercent ==> label@ == "1%"@,
        ratio == MixRatio::PointOnePercent ==> label@ == "0.1%"@,
        ratio == MixRatio::PointZeroOnePercent ==> label@ == "0.01%"@,
        ratio == MixRatio::ZeroPercent ==> label@ == "0%"@,
{
    match ratio {
        MixRatio::OnePercent => "1%",
        MixRatio::PointOnePercent => "0.1%",
        MixRatio::PointZeroOnePercent => "0.01%",
        MixRatio::ZeroPercent => "0%",
    }
}

} // verus!
