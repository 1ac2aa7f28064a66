use hikami_eval::emulation::TimeReport;
use hikami_eval::mixed_ratio::{
    accepts, mixed_ratio_step, ratio_label, scheduled_step, MixedRatioAction, MixedRatioEvent, MixedRatioState,
    ScheduledStep, SCHEDULE_LEN,
};
use hikami_eval::timer::Platform;
use hikami_eval::workload::MixRatio;

/// Drives the schedule with a clock that advances by `run_ticks(mix, run)` over each run.
fn drive(platform: Platform, run_ticks: impl Fn(MixRatio, u64) -> u64) -> Vec<MixedRatioAction> {
    let mut state = MixedRatioState::new();
    let mut event = MixedRatioEvent::Ack;
    let mut now: u64 = 1_000;
    let mut runs: u64 = 0;
    let mut last_mix = MixRatio::OnePercent;
    let mut actions = Vec::new();
    loop {
        assert!(accepts(&state, event));
        let action = mixed_ratio_step(&mut state, platform, event);
        actions.push(action);
        event = match action {
            MixedRatioAction::ReadClock => MixedRatioEvent::Clock(now),
            MixedRatioAction::RunMix(m) => {
                if m != last_mix {
                    runs = 0;
                    last_mix = m;
                }
                now += run_ticks(m, runs);
                runs += 1;
                MixedRatioEvent::Ack
            }
            MixedRatioAction::Finished => break,
            _ => MixedRatioEvent::Ack,
        };
    }
    actions
}

#[test]
fn schedule_order_and_counts() {
    let actions = drive(Platform::Megrez, |_, _| 500);
    assert_eq!(actions.len(), SCHEDULE_LEN + 1);
    let runs: Vec<MixRatio> = actions
        .iter()
        .filter_map(|a| if let MixedRatioAction::RunMix(m) = a { Some(*m) } else { None })
        .collect();
    assert_eq!(runs.len(), 40);
    assert!(runs[..10].iter().all(|&m| m == MixRatio::OnePercent));
    assert!(runs[10..20].iter().all(|&m| m == MixRatio::PointOnePercent));
    assert!(runs[20..30].iter().all(|&m| m == MixRatio::PointZeroOnePercent));
    assert!(runs[30..].iter().all(|&m| m == MixRatio::ZeroPercent));
    let resets = actions.iter().filter(|a| **a == MixedRatioAction::ResetCounter).count();
    assert_eq!(resets, 10);
    // A 0 % run restarts the counter, then reads the clock, runs, reads it again.
    assert_eq!(
        &actions[93..97],
        &[
            MixedRatioAction::ResetCounter,
            MixedRatioAction::ReadClock,
            MixedRatioAction::RunMix(MixRatio::ZeroPercent),
            MixedRatioAction::ReadClock
        ]
    );
    assert_eq!(actions[SCHEDULE_LEN], MixedRatioAction::Finished);
}

#[test]
fn reports_average_each_mix_own_runs() {
    let ticks = |m: MixRatio, r: u64| match m {
        MixRatio::OnePercent => 1_000 + r,
        MixRatio::PointOnePercent => 200,
        MixRatio::PointZeroOnePercent => 30 * (r + 1),
        MixRatio::ZeroPercent => 7,
    };
    let reports: Vec<(MixRatio, TimeReport)> = drive(Platform::Qemu, ticks)
        .iter()
        .filter_map(|a| if let MixedRatioAction::Report(m, r) = a { Some((*m, *r)) } else { None })
        .collect();
    assert_eq!(
        reports,
        vec![
            (MixRatio::OnePercent, TimeReport { value: 1_004, micros: Some(1) }),
            (MixRatio::PointOnePercent, TimeReport { value: 200, micros: Some(0) }),
            (MixRatio::PointZeroOnePercent, TimeReport { value: 165, micros: Some(0) }),
            (MixRatio::ZeroPercent, TimeReport { value: 7, micros: Some(0) }),
        ]
    );
}

#[test]
fn wrong_answers_are_refused() {
    let mut state = MixedRatioState::new();
    assert!(!accepts(&state, MixedRatioEvent::Clock(5)));
    assert_eq!(mixed_ratio_step(&mut state, Platform::Megrez, MixedRatioEvent::Ack), MixedRatioAction::ReadClock);
    assert!(!accepts(&state, MixedRatioEvent::Ack));
    assert_eq!(
        mixed_ratio_step(&mut state, Platform::Megrez, MixedRatioEvent::Clock(0)),
        MixedRatioAction::RunMix(MixRatio::OnePercent)
    );
    assert_eq!(mixed_ratio_step(&mut state, Platform::Megrez, MixedRatioEvent::Ack), MixedRatioAction::ReadClock);
    assert!(accepts(&state, MixedRatioEvent::Clock(u64::MAX)));
    let a = mixed_ratio_step(&mut state, Platform::Megrez, MixedRatioEvent::Clock(u64::MAX));
    assert_eq!(a, MixedRatioAction::ReadClock);
    assert!(accepts(&state, MixedRatioEvent::Clock(0)));
    mixed_ratio_step(&mut state, Platform::Megrez, MixedRatioEvent::Clock(0));
    mixed_ratio_step(&mut state, Platform::Megrez, MixedRatioEvent::Ack);
    // One more tick would push the mix's total past 64 bits.
    assert!(!accepts(&state, MixedRatioEvent::Clock(1)));
    assert!(accepts(&state, MixedRatioEvent::Clock(0)));
}

#[test]
fn schedule_steps_and_labels() {
    assert_eq!(scheduled_step(0), ScheduledStep::ReadClockStart);
    assert_eq!(scheduled_step(1), ScheduledStep::RunMix(MixRatio::OnePercent));
    assert_eq!(scheduled_step(30), ScheduledStep::Report(MixRatio::OnePercent));
    assert_eq!(scheduled_step(61), ScheduledStep::Report(MixRatio::PointOnePercent));
    assert_eq!(scheduled_step(92), ScheduledStep::Report(MixRatio::PointZeroOnePercent));
    assert_eq!(scheduled_step(133), ScheduledStep::Report(MixRatio::ZeroPercent));
    assert_eq!(scheduled_step(134), ScheduledStep::Finished);
    assert_eq!(ratio_label(MixRatio::OnePercent), "1%");
    assert_eq!(ratio_label(MixRatio::PointOnePercent), "0.1%");
    assert_eq!(ratio_label(MixRatio::PointZeroOnePercent), "0.01%");
    assert_eq!(ratio_label(MixRatio::ZeroPercent), "0%");
}
