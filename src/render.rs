//! Writing rendered stereo frames into a device buffer of any channel count.
use vstd::prelude::*;
use vstd::arithmetic::div_mod::{lemma_div_is_ordered, lemma_div_multiples_vanish};

verus! {

/// The sample at position `i` of an interleaved buffer of `channels`-sample
/// frames: even channels carry the left sample of the frame, odd channels
/// the right one.
pub open spec fn interleaved<T>(left: Seq<T>, right: Seq<T>, channels: int, i: int) -> T {
    if (i % channels) % 2 == 0 {
        left[i / channels]
    } else {
        right[i / channels]
    }
}

proof fn lemma_frame_in_range(i: int, frames: int, channels: int)
    requires
        0 <= i < frames * channels,
        0 < channels,
        0 <= frames,
    ensures
        0 <= i / channels < frames,
{
    assert(i / channels < frames) by {
        assert(i <= frames * channels - 1);
        assert(channels * frames == frames * channels) by (nonlinear_arith);
        lemma_div_is_ordered(i, frames * channels - 1, channels);
        lemma_div_multiples_vanish(frames, channels);
        assert((frames * channels - 1) / channels < frames) by (nonlinear_arith)
            requires
                0 < channels,
                0 <= frames,
                (channels * frames) / channels == frames,
                channels * frames == frames * channels,
        ;
    }
    lemma_div_is_ordered(0, i, channels);
}

/// Fills `output` with frames taken in order from `left` and `right`; a
/// last frame that the buffer cuts short gets its first channels only.
pub fn write_frames<T: Copy>(output: &mut [T], channels: usize, left: &[T], right: &[T])
    requires
        channels > 0,
        old(output)@.len() <= left@.len() * channels,
        old(output)@.len() <= right@.len() * channels,
    ensures
        final(output)@.len() == old(output)@.len(),
        forall|i: int|
            0 <= i < final(output)@.len() ==> #[trigger] final(output)@[i] == interleaved(
                left@,
                right@,
                channels as int,
                i,
            ),
{
    let n = output.len();
    let mut i: usize = 0;
    while i < n
        invariant
            channels > 0,
            n == output@.len(),
            n == old(output)@.len(),
            n <= left@.len() * channels,
            n <= right@.len() * channels,
            i <= n,
            forall|j: int|
                0 <= j < i ==> #[trigger] output@[j] == interleaved(
                    left@,
                    right@,
                    channels as int,
                    j,
                ),
        decreases n - i,
    {
        let frame = i / channels;
        proof {
            lemma_frame_in_range(i as int, left@.len() as int, channels as int);
            lemma_frame_in_range(i as int, right@.len() as int, channels as int);
        }
        if (i % channels) % 2 == 0 {
            output[i] = left[frame];
        } else {
            output[i] = right[frame];
        }
        i = i + 1;
    }
}

} // verus!
