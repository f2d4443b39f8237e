//! Bounded sample buffers.
//!
//! `SampleRing` keeps the most recent samples of one channel (oldest first),
//! `History` keeps the most recent spectrum frames (newest first).

use std::collections::VecDeque;
use vstd::prelude::*;

verus! {

/// Number of samples each channel buffer holds (one FFT frame).
pub const RING_CAPACITY: usize = 2048;

/// Number of spectrum frames the spectrogram history holds.
pub const HISTORY_CAPACITY: usize = 100;

/// The last `cap` elements of `s` (all of `s` when it is shorter).
pub open spec fn keep_latest<T>(s: Seq<T>, cap: nat) -> Seq<T> {
    if s.len() > cap {
        s.skip(s.len() - cap)
    } else {
        s
    }
}

/// The first `cap` elements of `s` (all of `s` when it is shorter).
pub open spec fn keep_first<T>(s: Seq<T>, cap: nat) -> Seq<T> {
    if s.len() > cap {
        s.take(cap as int)
    } else {
        s
    }
}

/// Trimming to the latest `cap` elements after each push gives the same
/// contents as trimming once at the end.
pub proof fn lemma_keep_latest_push<T>(s: Seq<T>, x: T, cap: nat)
    requires
        cap > 0,
    ensures
        keep_latest(keep_latest(s, cap).push(x), cap) == keep_latest(s.push(x), cap),
{
    let k = keep_latest(s, cap);
    if s.len() > cap {
        assert(keep_latest(k.push(x), cap) =~= keep_latest(s.push(x), cap));
    } else {
        assert(k == s);
    }
}

/// A full buffer stays full: pushing one sample into a buffer holding exactly
/// `cap` samples keeps exactly `cap` samples, the oldest one dropped.
pub proof fn lemma_full_stays_full<T>(s: Seq<T>, x: T, cap: nat)
    requires
        s.len() == cap,
    ensures
        keep_latest(s.push(x), cap).len() == cap,
        keep_latest(s.push(x), cap) == (if cap > 0 { s.drop_first().push(x) } else { Seq::<T>::empty() }),
{
    if cap > 0 {
        assert(keep_latest(s.push(x), cap) =~= s.drop_first().push(x));
    } else {
        assert(keep_latest(s.push(x), cap) =~= Seq::<T>::empty());
    }
}

/// The most recent samples of one channel, oldest first, at most
/// `RING_CAPACITY` of them.
pub struct SampleRing<T> {
    samples: VecDeque<T>,
}

impl<T> SampleRing<T> {
    #[verifier::type_invariant]
    closed spec fn bounded(&self) -> bool {
        self.samples@.len() <= RING_CAPACITY
    }

    /// The buffered samples, oldest first.
    pub closed spec fn view(&self) -> Seq<T> {
        self.samples@
    }
}

impl<T: Copy> SampleRing<T> {
    /// A full buffer of `RING_CAPACITY` copies of `silence`.
    pub fn filled(silence: T) -> (r: Self)
        ensures
            r.view() == Seq::new(RING_CAPACITY as nat, |i: int| silence),
    {
        let mut samples: VecDeque<T> = VecDeque::new();
        let mut i: usize = 0;
        while i < RING_CAPACITY
            invariant
                i <= RING_CAPACITY,
                samples@ == Seq::new(i as nat, |j: int| silence),
            decreases RING_CAPACITY - i,
        {
            samples.push_back(silence);
            i = i + 1;
            assert(samples@ =~= Seq::new(i as nat, |j: int| silence));
        }
        SampleRing { samples }
    }

    /// Number of buffered samples.
    pub fn len(&self) -> (n: usize)
        ensures
            n == self.view().len(),
            n <= RING_CAPACITY,
    {
        proof {
            use_type_invariant(self);
        }
        self.samples.len()
    }

    /// Appends `x`, dropping the oldest sample once the buffer is over capacity.
    pub fn push(&mut self, x: T)
        ensures
            final(self).view() == keep_latest(old(self).view().push(x), RING_CAPACITY as nat),
    {
        proof {
            use_type_invariant(&*self);
        }
        let ghost before = self.samples@;
        let mut samples: VecDeque<T> = VecDeque::new();
        std::mem::swap(&mut samples, &mut self.samples);
        samples.push_back(x);
        if samples.len() > RING_CAPACITY {
            samples.pop_front();
            assert(samples@ =~= before.push(x).skip(before.push(x).len() - RING_CAPACITY));
        }
        self.samples = samples;
    }

    /// Appends every sample of `xs` in order.
    pub fn push_all(&mut self, xs: &[T])
        ensures
            final(self).view() == keep_latest(old(self).view() + xs@, RING_CAPACITY as nat),
    {
        let ghost start = self.view();
        proof {
            use_type_invariant(&*self);
            assert(start + xs@.take(0) =~= start);
        }
        let mut i: usize = 0;
        while i < xs.len()
            invariant
                i <= xs.len(),
                self.view() == keep_latest(start + xs@.take(i as int), RING_CAPACITY as nat),
                start.len() <= RING_CAPACITY,
            decreases xs.len() - i,
        {
            self.push(xs[i]);
            proof {
                lemma_keep_latest_push(start + xs@.take(i as int), xs@[i as int], RING_CAPACITY as nat);
                assert((start + xs@.take(i as int)).push(xs@[i as int]) =~= start + xs@.take(i + 1));
            }
            i = i + 1;
        }
        proof {
            assert(xs@.take(xs.len() as int) =~= xs@);
        }
    }

    /// The latest `min(count, len)` samples, oldest first.
    pub fn latest(&self, count: usize) -> (r: Vec<T>)
        ensures
            r@ == self.view().skip(self.view().len() - if count < self.view().len() { count as int } else { self.view().len() as int }),
    {
        proof {
            use_type_invariant(self);
        }
        let available = self.samples.len();
        let take = if count < available { count } else { available };
        let start = available - take;
        let mut out: Vec<T> = Vec::new();
        let mut i: usize = start;
        while i < available
            invariant
                start <= i <= available,
                available == self.samples@.len(),
                out@ == self.samples@.subrange(start as int, i as int),
            decreases available - i,
        {
            out.push(self.samples[i]);
            i = i + 1;
            assert(out@ =~= self.samples@.subrange(start as int, i as int));
        }
        assert(out@ =~= self.samples@.skip(start as int));
        out
    }
}

/// The most recent frames, newest first, at most `HISTORY_CAPACITY` of them.
pub struct History<T> {
    frames: VecDeque<T>,
}

impl<T> History<T> {
    #[verifier::type_invariant]
    closed spec fn bounded(&self) -> bool {
        self.frames@.len() <= HISTORY_CAPACITY
    }

    /// The stored frames, newest first.
    pub closed spec fn view(&self) -> Seq<T> {
        self.frames@
    }

    /// An empty history.
    pub fn new() -> (h: Self)
        ensures
            h.view() == Seq::<T>::empty(),
    {
        History { frames: VecDeque::new() }
    }

    /// Number of stored frames.
    pub fn len(&self) -> (n: usize)
        ensures
            n == self.view().len(),
            n <= HISTORY_CAPACITY,
    {
        proof {
            use_type_invariant(self);
        }
        self.frames.len()
    }

    /// The frame `i` places behind the newest one.
    pub fn get(&self, i: usize) -> (f: &T)
        requires
            i < self.view().len(),
        ensures
            *f == self.view()[i as int],
    {
        &self.frames[i]
    }

    /// Puts `frame` in front, dropping the oldest frame once over capacity.
    pub fn push_newest(&mut self, frame: T)
        ensures
            final(self).view() == keep_first(seq![frame] + old(self).view(), HISTORY_CAPACITY as nat),
    {
        proof {
            use_type_invariant(&*self);
        }
        let ghost before = self.frames@;
        let mut frames: VecDeque<T> = VecDeque::new();
        std::mem::swap(&mut frames, &mut self.frames);
        frames.push_front(frame);
        if frames.len() > HISTORY_CAPACITY {
            let _ = frames.pop_back();
            assert(frames@ =~= (seq![frame] + before).take(HISTORY_CAPACITY as int));
        }
        self.frames = frames;
    }
}

} // verus!
