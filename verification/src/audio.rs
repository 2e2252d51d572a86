//! Whole-number parts of audio capture: which samples a resampled one lies between,
//! and how loud the loudest integer sample is.

use vstd::arithmetic::power2::{
    lemma2_to64, lemma2_to64_rest, lemma_pow2_strictly_increases, lemma_pow2_unfold, pow2,
};
use vstd::prelude::*;

verus! {

/// The sample rate that speech recognition expects.
pub const WHISPER_SAMPLE_RATE: u32 = 16000;

/// Whether resampling leaves the samples as they are: there are none, or the rate
/// is already right.
pub fn keeps_samples(len: usize, from: u32, to: u32) -> (r: bool)
    ensures
        r == (len == 0 || from == to),
{
    len == 0 || from == to
}

/// The two samples to interpolate between when the position in the input starts
/// at `index`: that one and the next, or the last one past the end.
pub fn taps(index: usize, len: usize) -> (r: (usize, usize))
    requires
        0 < len,
    ensures
        r.0 == (if index < len {
            index as int
        } else {
            len - 1
        }),
        r.1 == (if index + 1 < len {
            index + 1
        } else {
            len - 1
        }),
        r.0 < len && r.1 < len,
{
    let last: usize = len - 1;
    if index < last {
        (index, index + 1)
    } else {
        (last, last)
    }
}

/// What an integer sample of `bits` bits is divided by: two to the power of one less
/// than its bits, which for 64 bits has wrapped around.
pub fn full_scale(bits: u16) -> (r: i64)
    requires
        1 <= bits <= 64,
    ensures
        bits < 64 ==> r == pow2((bits - 1) as nat),
        bits == 64 ==> r == i64::MIN,
{
    if bits == 64 {
        return i64::MIN;
    }
    proof {
        lemma2_to64();
    }
    let mut scale: i64 = 1;
    let mut i: u16 = 1;
    while i < bits
        invariant
            1 <= i <= bits <= 63,
            scale == pow2((i - 1) as nat),
        decreases bits - i,
    {
        proof {
            lemma2_to64_rest();
            lemma_pow2_strictly_increases((i - 1) as nat, 62);
            lemma_pow2_unfold(i as nat);
        }
        scale = scale * 2;
        i += 1;
    }
    scale
}

} // verus!
