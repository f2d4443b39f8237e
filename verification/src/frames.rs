//! Splitting interleaved multi-channel sample streams into left/right frames.

use vstd::prelude::*;

verus! {

/// Frame `i` of an interleaved stream with `channels` channels: its first
/// sample as left, its second (or, for mono, again its first) as right.
pub open spec fn frame_at<T>(samples: Seq<T>, channels: int, i: int) -> (T, T) {
    let base = i * channels;
    (samples[base], if channels > 1 { samples[base + 1] } else { samples[base] })
}

proof fn lemma_frame_bounds(i: int, c: int, len: int)
    requires
        c > 0,
        0 <= i < len / c,
    ensures
        0 <= i * c,
        i * c + c <= len,
        (i + 1) * c == i * c + c,
{
    assert(i * c + c <= len) by (nonlinear_arith)
        requires
            c > 0,
            0 <= i < len / c,
    ;
    assert(0 <= i * c) by (nonlinear_arith)
        requires
            c > 0,
            0 <= i,
    ;
    assert((i + 1) * c == i * c + c) by (nonlinear_arith);
}

/// The complete frames of `samples` interleaved with `channels` channels, as
/// (left, right) pairs; a trailing partial frame is dropped, and a channel
/// count of 0 gives no frames.
pub fn deinterleave<T: Copy>(samples: &[T], channels: usize) -> (frames: Vec<(T, T)>)
    ensures
        channels == 0 ==> frames@.len() == 0,
        channels > 0 ==> frames@.len() == (samples@.len() as int) / (channels as int),
        channels > 0 ==> forall|i: int|
            0 <= i < frames@.len() ==> #[trigger] frames@[i] == frame_at(samples@, channels as int, i),
{
    let mut frames: Vec<(T, T)> = Vec::new();
    if channels == 0 {
        return frames;
    }
    let count = samples.len() / channels;
    let mut i: usize = 0;
    let mut base: usize = 0;
    while i < count
        invariant
            channels > 0,
            count == (samples@.len() as int) / (channels as int),
            i <= count,
            base == i * channels,
            frames@.len() == i,
            forall|j: int| 0 <= j < i ==> #[trigger] frames@[j] == frame_at(samples@, channels as int, j),
        decreases count - i,
    {
        proof {
            lemma_frame_bounds(i as int, channels as int, samples@.len() as int);
        }
        let left = samples[base];
        let right = if channels > 1 { samples[base + 1] } else { samples[base] };
        frames.push((left, right));
        base = base + channels;
        i = i + 1;
    }
    frames
}

} // verus!
