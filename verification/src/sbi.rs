//! Requests of the RISC-V Supervisor Binary Interface (SBI) that the evaluation programs
//! make, and the reading of the firmware's replies.
//!
//! The `ecall` itself is an instruction; this module decides what goes into the argument
//! registers and what is taken out of the reply.
use vstd::prelude::*;

verus! {

/// Extension ID of the legacy console putchar call.
pub const EID_CONSOLE_PUTCHAR: usize = 0x01;
/// Function ID of the legacy console putchar call.
pub const FID_CONSOLE_PUTCHAR: usize = 0x0;
/// Extension ID of the base extension.
pub const EID_BASE: usize = 0x10;
/// Function ID of `sbi_get_spec_version` in the base extension.
pub const FID_GET_SPEC_VERSION: usize = 0x0;
/// Extension ID of the timer extension ("TIME" in ASCII).
pub const EID_TIME: usize = 0x54494D45;
/// Function ID of `sbi_set_timer` in the timer extension.
pub const FID_SET_TIMER: usize = 0x0;

/// One `ecall` into the SBI firmware: the extension ID goes in `a7`, the function ID in
/// `a6`, and the three arguments in `a0`, `a1` and `a2`.
#[derive(Clone, Copy, Debug, PartialEq, Eq, Structural)]
pub struct SbiCall {
    pub eid: usize,
    pub fid: usize,
    pub arg0: usize,
    pub arg1: usize,
    pub arg2: usize,
}

/// The firmware's reply to an `ecall`: the error code comes back in `a0`, the value in `a1`.
#[derive(Clone, Copy, Debug, PartialEq, Eq, Structural)]
pub struct SbiRet {
    pub error: usize,
    pub value: usize,
}

/// The call with the given registers.
pub open spec fn spec_sbi_call(eid: usize, fid: usize, arg0: usize, arg1: usize, arg2: usize) -> SbiCall {
    SbiCall { eid, fid, arg0, arg1, arg2 }
}

/// The call that puts one character on the firmware console.
pub open spec fn console_putchar_call(c: usize) -> SbiCall {
    spec_sbi_call(EID_CONSOLE_PUTCHAR, FID_CONSOLE_PUTCHAR, c, 0, 0)
}

/// The call that asks for the SBI specification version.
pub open spec fn get_spec_version_call_spec() -> SbiCall {
    spec_sbi_call(EID_BASE, FID_GET_SPEC_VERSION, 0, 0, 0)
}

/// The call that programs the next supervisor timer event at `stime_value`.
pub open spec fn set_timer_call(stime_value: u64) -> SbiCall {
    spec_sbi_call(EID_TIME, FID_SET_TIMER, stime_value as usize, 0, 0)
}

/// Lays out the registers of an `ecall`.
pub fn sbi_call(eid: usize, fid: usize, arg0: usize, arg1: usize, arg2: usize) -> (call: SbiCall)
    ensures
        call == spec_sbi_call(eid, fid, arg0, arg1, arg2),
{
    SbiCall { eid, fid, arg0, arg1, arg2 }
}

/// Puts a character to the console: the `ecall` that does it.
pub fn console_putchar(c: usize) -> (call: SbiCall)
    ensures
        call == console_putchar_call(c),
{
    sbi_call(EID_CONSOLE_PUTCHAR, FID_CONSOLE_PUTCHAR, c, 0, 0)
}

/// The `ecall` that asks the firmware for its SBI specification version.
pub fn get_spec_version_call() -> (call: SbiCall)
    ensures
        call == get_spec_version_call_spec(),
{
    sbi_call(EID_BASE, FID_GET_SPEC_VERSION, 0, 0, 0)
}

/// Gets the SBI specification version out of the firmware's reply to
/// [`get_spec_version_call`]: the value register, whatever the error register holds.
pub fn get_spec_version(reply: SbiRet) -> (version: usize)
    ensures
        version == reply.value,
{
    reply.value
}

/// Sets the timer: the `ecall` that asks for a supervisor timer interrupt once the `time`
/// counter reaches `stime_value`.
pub fn set_timer(stime_value: u64) -> (call: SbiCall)
    ensures
        call == set_timer_call(stime_value),
        call.eid == EID_TIME && call.fid == FID_SET_TIMER,
        call.arg1 == 0 && call.arg2 == 0,
        stime_value <= usize::MAX ==> call.arg0 == stime_value,
{
    sbi_call(EID_TIME, FID_SET_TIMER, stime_value as usize, 0, 0)
}

/// The timer call carries the whole deadline in its one argument register: on a hart
/// whose registers hold 64 bits the argument is the deadline itself, never a part of it,
/// and the other two argument registers are zero.
pub proof fn lemma_set_timer_whole_deadline(stime_value: u64)
    ensures
        set_timer_call(stime_value).eid == EID_TIME,
        set_timer_call(stime_value).fid == FID_SET_TIMER,
        set_timer_call(stime_value).arg1 == 0,
        set_timer_call(stime_value).arg2 == 0,
        stime_value <= usize::MAX ==> set_timer_call(stime_value).arg0 == stime_value,
        usize::BITS == 64 ==> set_timer_call(stime_value).arg0 == stime_value,
{
}

} // verus!
