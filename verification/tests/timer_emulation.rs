use hikami_eval::emulation::{accumulate_run, report_time, show_ratio_average, LatencyRange, TimeReport};
use hikami_eval::mmio::MmioWrite;
use hikami_eval::timer::{elapsed_ticks, get_current_time, init_timer, reset_counter, Platform, TimeSample};

#[test]
fn init_timer_loads_max_then_enables_periodic() {
    assert_eq!(
        init_timer(),
        vec![
            MmioWrite { addr: 0x5184_0000, value: 0xFFFF_FFFF },
            MmioWrite { addr: 0x5184_0008, value: 7 },
        ]
    );
    assert_eq!(init_timer()[1].value & 4, 4);
    assert_eq!(reset_counter(), MmioWrite { addr: 0x5184_0000, value: 0xFFFF_FFFF });
}

#[test]
fn rtc_time_joins_halves() {
    assert_eq!(get_current_time(TimeSample::Rtc { low: 0x89ab_cdef, high: 0x0123_4567 }), 0x0123_4567_89ab_cdef);
    assert_eq!(get_current_time(TimeSample::Rtc { low: 5, high: 0 }), 5);
    let t = get_current_time(TimeSample::Rtc { low: 17, high: 3 });
    assert_eq!((t % (1 << 32), t >> 32), (17, 3));
}

#[test]
fn down_counter_time_in_microseconds() {
    assert_eq!(get_current_time(TimeSample::DownCounter { current: 0xFFFF_FFFF }), 0);
    assert_eq!(get_current_time(TimeSample::DownCounter { current: 0xFFFF_FFFF - 48 }), 2);
    assert_eq!(get_current_time(TimeSample::DownCounter { current: 0xFFFF_FFFF - 47 }), 1);
    assert_eq!(get_current_time(TimeSample::DownCounter { current: 0 }), 0xFFFF_FFFF / 24);
    let earlier = get_current_time(TimeSample::DownCounter { current: 1_000_000 });
    let later = get_current_time(TimeSample::DownCounter { current: 500 });
    assert!(earlier <= later);
}

#[test]
fn elapsed_saturates() {
    assert_eq!(elapsed_ticks(10, 25), 15);
    assert_eq!(elapsed_ticks(25, 10), 0);
    assert_eq!(elapsed_ticks(7, 7), 0);
}

#[test]
fn latency_range_tracks_min_and_max() {
    let mut range = LatencyRange::new();
    assert_eq!((range.min(), range.max()), (u64::MAX, 0));
    for d in [120u64, 95, 300, 101] {
        range.record(d);
    }
    assert_eq!((range.min(), range.max()), (95, 300));
    range.record(95);
    assert_eq!((range.min(), range.max()), (95, 300));
}

#[test]
fn runs_add_up() {
    let mut sum = 0;
    for (start, end) in [(100u64, 250u64), (300, 300), (500, 400), (1000, 1010)] {
        sum = accumulate_run(sum, start, end);
    }
    assert_eq!(sum, 160);
}

#[test]
fn ratio_average_per_platform() {
    assert_eq!(show_ratio_average(Platform::Qemu, 123_456_789), TimeReport { value: 12_345_678, micros: Some(12_345) });
    assert_eq!(show_ratio_average(Platform::Megrez, 41_234), TimeReport { value: 4_123, micros: None });
    assert_eq!(report_time(Platform::Qemu, 2_500), TimeReport { value: 2_500, micros: Some(2) });
    assert_eq!(report_time(Platform::Megrez, 2_500), TimeReport { value: 2_500, micros: None });
}
