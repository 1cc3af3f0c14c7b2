//! The last step of mixing: 32-bit sums of the voices to 16-bit output.

use vstd::prelude::*;

verus! {

/// The mixed sums carry twelve bits of volume and panning scale.
pub const DOWNMIX_SHIFT: i32 = 12;
pub const LIM16_HI: i32 = 32767;
pub const LIM16_LO: i32 = -32768;

/// The output sample of the mixed sum `x`: `x` shifted right by 12 bits
/// (the floor of `x / 4096`), clamped to the 16-bit range.
pub open spec fn downmixed(x: i32) -> i16 {
    let s = x >> 12i32;
    if s > 32767 { 32767i16 } else if s < -32768 { -32768i16 } else { s as i16 }
}

/// The output sample of one mixed sum (see `downmixed`).
pub fn downmix_sample(x: i32) -> (r: i16)
    ensures
        r == downmixed(x),
{
    let s = x >> DOWNMIX_SHIFT;
    if s > LIM16_HI {
        32767
    } else if s < LIM16_LO {
        -32768
    } else {
        s as i16
    }
}

/// The output samples of the mixed sums `buf`, one for each, in order.
pub fn downmix(buf: &[i32]) -> (r: Vec<i16>)
    ensures
        r@.len() == buf@.len(),
        forall|i: int| 0 <= i < buf@.len() ==> #[trigger] r@[i] == downmixed(buf@[i]),
{
    let mut out: Vec<i16> = Vec::new();
    let mut i: usize = 0;
    while i < buf.len()
        invariant
            i <= buf@.len(),
            out@.len() == i,
            forall|j: int| 0 <= j < i ==> #[trigger] out@[j] == downmixed(buf@[j]),
        decreases buf@.len() - i,
    {
        out.push(downmix_sample(buf[i]));
        i = i + 1;
    }
    out
}

} // verus!
