use hikami_eval::external_interrupt::{
    self as ext, handle_interrupt as handle_external, is_supervisor_external, summarize_results as summarize_external,
    ExternalActions, ExternalSamples,
};
use hikami_eval::mmio::MmioWrite;
use hikami_eval::plic::{
    claim_address, claim_offset, enable_bit, enable_offset, enable_write, plic_init, priority_offset, threshold_offset,
};
use hikami_eval::sbi::SbiCall;
use hikami_eval::timer_interrupt::{
    self as tmr, counts_down, first_timer, handle_interrupt as handle_timer, sample_delay,
    summarize_results as summarize_timer, TimerActions, TimerSamples,
};

const SEXT: usize = 0x8000_0000_0000_0009;
const STIMER: usize = 0x8000_0000_0000_0005;

#[test]
fn plic_layout_for_timer_source() {
    let init = plic_init();
    assert_eq!(init.priority, MmioWrite { addr: 0x0c00_0564, value: 1 });
    assert_eq!(init.enable_addr, 0x0c00_20a8);
    assert_eq!(init.enable_bit, 1 << 25);
    assert_eq!(init.threshold, MmioWrite { addr: 0x0c20_1000, value: 0 });
    assert_eq!(enable_write(init, 0x0000_00f0), MmioWrite { addr: 0x0c00_20a8, value: 0x0200_00f0 });
    assert_eq!(claim_address(), 0x0c20_1004);
}

#[test]
fn plic_offsets() {
    assert_eq!(priority_offset(0), 0);
    assert_eq!(priority_offset(10), 40);
    assert_eq!(enable_offset(0, 31), 0x2000);
    assert_eq!(enable_offset(0, 32), 0x2004);
    assert_eq!(enable_offset(2, 70), 0x2000 + 0x100 + 8);
    assert_eq!(enable_bit(33), 2);
    assert_eq!(threshold_offset(0), 0x20_0000);
    assert_eq!(claim_offset(3), 0x20_3004);
}

#[test]
fn external_handler_records_timer_claims() {
    let mut s = ExternalSamples::new();
    assert!(is_supervisor_external(SEXT));
    assert!(!is_supervisor_external(STIMER));
    let a = handle_external(&mut s, SEXT, 239_000, 0x159);
    assert_eq!(a, ExternalActions { read_eoi: true, complete: Some(0x159) });
    assert_eq!((s.sample_count(), s.delay(0)), (1, 1_000));
    // Another source: completed but not recorded, the timer is not touched.
    let a = handle_external(&mut s, SEXT, 0, 7);
    assert_eq!(a, ExternalActions { read_eoi: false, complete: Some(7) });
    assert_eq!(s.sample_count(), 1);
    // Nothing pending: claim 0 is not completed.
    let a = handle_external(&mut s, SEXT, 0, 0);
    assert_eq!(a, ExternalActions { read_eoi: false, complete: None });
    // Another trap: ignored.
    let a = handle_external(&mut s, STIMER, 5, 0x159);
    assert_eq!(a, ExternalActions { read_eoi: false, complete: None });
    assert_eq!(s.sample_count(), 1);
}

#[test]
fn external_handler_stops_when_full_and_summary() {
    let mut s = ExternalSamples::new();
    for k in 0..ext::NUM_SAMPLES as u64 {
        handle_external(&mut s, SEXT, 240_000 - (1_000 + k), 0x159);
    }
    assert!(s.is_complete());
    let a = handle_external(&mut s, SEXT, 0, 0x159);
    assert_eq!(a, ExternalActions { read_eoi: true, complete: Some(0x159) });
    assert_eq!(s.sample_count(), ext::NUM_SAMPLES);
    assert_eq!(s.delay(100), 1_100);
    let summary = summarize_external(&s);
    // Slots 1..=99 hold 1001..=1099.
    assert_eq!(summary.sum, (1001..=1099).sum::<u64>());
    assert_eq!(summary.average, 1050);
    assert_eq!(summary.versus_expected, 1050 - 10_000);
}

#[test]
fn external_timer_start_and_stop() {
    assert_eq!(
        ext::start_timer(),
        vec![MmioWrite { addr: 0x5184_0000, value: 240_000 }, MmioWrite { addr: 0x5184_0008, value: 3 }]
    );
    assert_eq!(ext::stop_timer(), MmioWrite { addr: 0x5184_0008, value: 0 });
}

#[test]
fn timer_handler_records_and_rearms() {
    let mut s = TimerSamples::new();
    let a = handle_timer(&mut s, STIMER, 0xFFFF_0000, 5_000_000);
    assert_eq!(
        a,
        TimerActions {
            next_timer: Some(SbiCall { eid: 0x5449_4D45, fid: 0, arg0: 5_100_000, arg1: 0, arg2: 0 }),
            clear_stip: true
        }
    );
    assert_eq!((s.sample_count(), s.timestamp(0)), (1, 0xFFFF_0000));
    let a = handle_timer(&mut s, SEXT, 1, 1);
    assert_eq!(a, TimerActions { next_timer: None, clear_stip: false });
    assert_eq!(s.sample_count(), 1);
    assert_eq!(first_timer(42), SbiCall { eid: 0x5449_4D45, fid: 0, arg0: 100_042, arg1: 0, arg2: 0 });
}

#[test]
fn timer_summary_telescopes() {
    let mut s = TimerSamples::new();
    for k in 0..tmr::NUM_SAMPLES as u32 {
        handle_timer(&mut s, STIMER, 4_000_000_000 - k * 240_100 - (k % 3), 0);
    }
    assert!(s.is_complete());
    // Full: further interrupts still re-arm but record nothing.
    let a = handle_timer(&mut s, STIMER, 1, 10);
    assert!(a.clear_stip);
    assert_eq!(s.sample_count(), tmr::NUM_SAMPLES);
    assert!(counts_down(&s));
    assert_eq!(sample_delay(&s, 1), s.timestamp(1) - s.timestamp(2));
    let summary = summarize_timer(&s);
    let expected_sum = (s.timestamp(1) - s.timestamp(99)) as u64;
    assert_eq!(summary.sum, expected_sum);
    assert_eq!(summary.average, expected_sum / 98);
    assert_eq!(summary.versus_expected, (expected_sum / 98) as i64 - 240_000);
}

#[test]
fn timer_stamps_that_rise_are_flagged() {
    let mut s = TimerSamples::new();
    for k in 0..tmr::NUM_SAMPLES as u32 {
        handle_timer(&mut s, STIMER, 1_000 + k, 0);
    }
    assert!(!counts_down(&s));
    assert_eq!(
        tmr::start_timer(),
        vec![MmioWrite { addr: 0x5184_0000, value: 0xFFFF_FFFF }, MmioWrite { addr: 0x5184_0008, value: 5 }]
    );
}
