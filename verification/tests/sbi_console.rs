use hikami_eval::console::print_fmt;
use hikami_eval::sbi::{
    console_putchar, get_spec_version, get_spec_version_call, sbi_call, set_timer,
    SbiCall, SbiRet,
};

#[test]
fn console_putchar_uses_legacy_extension() {
    let call = console_putchar(b'A' as usize);
    assert_eq!(call, SbiCall { eid: 0x01, fid: 0, arg0: 0x41, arg1: 0, arg2: 0 });
}

#[test]
fn set_timer_uses_time_extension() {
    let call = set_timer(1_234_567);
    assert_eq!(call, SbiCall { eid: 0x5449_4D45, fid: 0, arg0: 1_234_567, arg1: 0, arg2: 0 });
}

#[test]
fn spec_version_request_and_reply() {
    assert_eq!(get_spec_version_call(), SbiCall { eid: 0x10, fid: 0, arg0: 0, arg1: 0, arg2: 0 });
    assert_eq!(get_spec_version(SbiRet { error: 0, value: 0x0100_0000 }), 0x0100_0000);
    // The value register is taken whatever the error register holds.
    assert_eq!(get_spec_version(SbiRet { error: 3, value: 7 }), 7);
}

#[test]
fn sbi_call_lays_out_registers() {
    assert_eq!(sbi_call(1, 2, 3, 4, 5), SbiCall { eid: 1, fid: 2, arg0: 3, arg1: 4, arg2: 5 });
}

#[test]
fn print_fmt_one_call_per_byte() {
    let calls = print_fmt("hi\n");
    let chars: Vec<usize> = calls.iter().map(|c| c.arg0).collect();
    assert_eq!(chars, vec![0x68, 0x69, 0x0a]);
    assert!(calls.iter().all(|c| c.eid == 1 && c.fid == 0 && c.arg1 == 0 && c.arg2 == 0));
}

#[test]
fn print_fmt_sends_utf8_bytes() {
    let calls = print_fmt("\u{b5}s");
    let chars: Vec<usize> = calls.iter().map(|c| c.arg0).collect();
    assert_eq!(chars, vec![0xc2, 0xb5, 0x73]);
}

#[test]
fn print_fmt_empty_and_concat() {
    assert!(print_fmt("").is_empty());
    let joined = print_fmt("Ratio Average: 12");
    let mut parts = print_fmt("Ratio ");
    parts.extend(print_fmt("Average: 12"));
    assert_eq!(joined, parts);
}
