//! The bit-set demonstration of the Zbs program: starting from a value, set bit 0, then
//! bit 1, and so on, printing the value after each step.
use vstd::prelude::*;

verus! {

/// `x` with bits `0` to `n - 1` also set.
pub open spec fn with_low_bits(x: i32, n: u32) -> i32 {
    x | ((((1u64 << n) - 1) as u32) as i32)
}

/// The values after each step: step `i` sets bit `i` of the previous value, so after
/// step `i` bits `0` to `i` are set on top of `start`.
pub fn bit_set_sequence(start: i32, count: u32) -> (values: Vec<i32>)
    requires
        count <= 32,
    ensures
        values@.len() == count,
        forall|i: int| 0 <= i < count ==> #[trigger] values@[i] == with_low_bits(start, (i + 1) as u32),
{
    let mut values: Vec<i32> = Vec::new();
    let mut x = start;
    let mut i: u32 = 0;
    assert(start | ((((1u64 << 0u32) - 1) as u32) as i32) == start) by (bit_vector);
    while i < count
        invariant
            i <= count <= 32,
            x == with_low_bits(start, i),
            values@.len() == i,
            forall|k: int| 0 <= k < i ==> #[trigger] values@[k] == with_low_bits(start, (k + 1) as u32),
        decreases count - i,
    {
        let next = x | (1i32 << i);
        assert(next == start | ((((1u64 << ((i + 1) as u32)) - 1) as u32) as i32)) by (bit_vector)
            requires
                i < 32,
                x == start | ((((1u64 << i) - 1) as u32) as i32),
                next == x | (1i32 << i),
        ;
        x = next;
        values.push(x);
        i = i + 1;
    }
    values
}

} // verus!
