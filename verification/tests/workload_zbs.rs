use hikami_eval::workload::{execute_10_units, mixed_ratio_run, throughput_code, unroll_unit, Insn, MixRatio};
use hikami_eval::zbs::bit_set_sequence;

fn emulated(code: &[Insn]) -> usize {
    code.iter().filter(|&&x| x == Insn::Emulated).count()
}

#[test]
fn unit_target_sits_in_the_middle() {
    for n in [100usize, 1000, 10000] {
        let unit = unroll_unit(Insn::Emulated, Insn::Native, n);
        assert_eq!(unit.len(), n);
        assert_eq!(emulated(&unit), 1);
        assert_eq!(unit[n / 2 - 1], Insn::Emulated);
    }
    let unit = unroll_unit(Insn::Emulated, Insn::Native, 100);
    assert_eq!(unit.iter().position(|&x| x == Insn::Emulated), Some(49));
}

#[test]
fn ten_units() {
    let code = execute_10_units(Insn::Emulated, Insn::Native, 1000);
    assert_eq!(code.len(), 10_000);
    assert_eq!(emulated(&code), 10);
    assert_eq!(code[499], Insn::Emulated);
    assert_eq!(code[1499], Insn::Emulated);
    assert_eq!(emulated(&execute_10_units(Insn::Native, Insn::Native, 100)), 0);
}

#[test]
fn mixed_runs_are_one_million_instructions() {
    for (ratio, expected) in [
        (MixRatio::OnePercent, 10_000usize),
        (MixRatio::PointOnePercent, 1_000),
        (MixRatio::PointZeroOnePercent, 100),
        (MixRatio::ZeroPercent, 0),
    ] {
        let code = mixed_ratio_run(ratio);
        assert_eq!(code.len(), 1_000_000);
        assert_eq!(emulated(&code), expected);
    }
    let code = mixed_ratio_run(MixRatio::PointZeroOnePercent);
    assert_eq!(code.iter().position(|&x| x == Insn::Emulated), Some(4999));
    assert_eq!(code[10_000 + 4999], Insn::Emulated);
}

#[test]
fn throughput_run_is_all_emulated() {
    let code = throughput_code();
    assert_eq!(code.len(), 1_000_000);
    assert_eq!(emulated(&code), 1_000_000);
}

#[test]
fn zbs_demo_values() {
    let values = bit_set_sequence(0b0000_1000, 10);
    assert_eq!(values, vec![0x9, 0xb, 0xf, 0xf, 0x1f, 0x3f, 0x7f, 0xff, 0x1ff, 0x3ff]);
    assert!(bit_set_sequence(5, 0).is_empty());
    let full = bit_set_sequence(0, 32);
    assert_eq!(full[30], i32::MAX);
    assert_eq!(full[31], -1);
}
