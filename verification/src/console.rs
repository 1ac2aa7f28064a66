//! Console output through the firmware: every byte of the text becomes one console
//! putchar `ecall`, in order.
use vstd::prelude::*;
use vstd::string::*;
use crate::sbi::{console_putchar, console_putchar_call, SbiCall};

verus! {

/// The console putchar calls that write `bytes`, one per byte, in order.
pub open spec fn putchar_calls(bytes: Seq<u8>) -> Seq<SbiCall> {
    bytes.map_values(|b: u8| console_putchar_call(b as usize))
}

/// Writes formatted text to the console: the `ecall`s that put each of its UTF-8 bytes,
/// in order. The text is the output of `format_args!`, already rendered.
pub fn print_fmt(text: &str) -> (calls: Vec<SbiCall>)
    ensures
        calls@ == putchar_calls(text.spec_bytes()),
{
    let bytes = text.as_bytes();
    let n = bytes.len();
    let mut calls: Vec<SbiCall> = Vec::new();
    let mut i: usize = 0;
    while i < n
        invariant
            n == bytes@.len(),
            bytes@ == text.spec_bytes(),
            i <= n,
            calls@ == putchar_calls(bytes@.take(i as int)),
        decreases n - i,
    {
        let b = bytes[i];
        calls.push(console_putchar(b as usize));
        i = i + 1;
        assert(bytes@.take(i as int) =~= bytes@.take((i - 1) as int).push(b));
        assert(calls@ =~= putchar_calls(bytes@.take(i as int)));
    }
    assert(bytes@.take(n as int) =~= bytes@);
    calls
}

/// Writing two pieces one after the other sends the same calls as writing them joined:
/// the calls for `a + b` are the calls for `a` followed by the calls for `b`.
pub proof fn lemma_print_concat(a: Seq<u8>, b: Seq<u8>)
    ensures
        putchar_calls(a + b) == putchar_calls(a) + putchar_calls(b),
{
    assert(putchar_calls(a + b) =~= putchar_calls(a) + putchar_calls(b));
}

/// Printing loses nothing: the character argument of each call gives back the byte.
pub proof fn lemma_print_recovers_bytes(bytes: Seq<u8>)
    ensures
        putchar_calls(bytes).len() == bytes.len(),
        forall|i: int|
            0 <= i < bytes.len() ==> (#[trigger] putchar_calls(bytes)[i]).arg0 as u8 == bytes[i],
{
}

} // verus!
