//! Bookkeeping of the spectrum bars: how many there are, the per-bar state
//! vectors, and the peak-hold timer that decides when a peak marker falls.

use vstd::prelude::*;

verus! {

/// Number of bars used when the configuration asks for a width-following count.
pub const DEFAULT_BAR_COUNT: usize = 64;

/// Frames a peak marker stays put after being pushed up (about 250 ms at 60 fps).
pub const PEAK_HOLD_FRAMES: u32 = 15;

/// The bar count a processor starts with: the requested count, or
/// `DEFAULT_BAR_COUNT` when 0 is requested.
pub fn initial_bar_count(requested: usize) -> (n: usize)
    ensures
        n == if requested == 0 { DEFAULT_BAR_COUNT } else { requested },
{
    if requested == 0 {
        DEFAULT_BAR_COUNT
    } else {
        requested
    }
}

/// The bar count the screen asks for: the configured count, or the drawing
/// area's width when the configured count is 0.
pub fn bars_for_width(configured: usize, area_width: u16) -> (n: usize)
    ensures
        n == if configured == 0 { area_width as usize } else { configured },
{
    if configured == 0 {
        area_width as usize
    } else {
        configured
    }
}

/// `s` cut to `n` elements, or extended to `n` with copies of `fill`.
pub open spec fn resized<T>(s: Seq<T>, n: nat, fill: T) -> Seq<T> {
    if n <= s.len() {
        s.take(n as int)
    } else {
        s + Seq::new((n - s.len()) as nat, |i: int| fill)
    }
}

/// Cuts `v` to `n` elements or extends it with copies of `fill`.
pub fn resize_with<T: Copy>(v: &mut Vec<T>, n: usize, fill: T)
    ensures
        final(v)@ == resized(old(v)@, n as nat, fill),
{
    if n <= v.len() {
        v.truncate(n);
    } else {
        let ghost start = v@;
        while v.len() < n
            invariant
                start.len() <= v@.len() <= n,
                v@ == start + Seq::new((v@.len() - start.len()) as nat, |i: int| fill),
            decreases n - v.len(),
        {
            v.push(fill);
            assert(v@ =~= start + Seq::new((v@.len() - start.len()) as nat, |i: int| fill));
        }
    }
}

/// `len` copies of `fill`.
pub fn filled_vec<T: Copy>(len: usize, fill: T) -> (v: Vec<T>)
    ensures
        v@ == Seq::new(len as nat, |i: int| fill),
{
    let mut v: Vec<T> = Vec::new();
    resize_with(&mut v, len, fill);
    assert(v@ =~= Seq::new(len as nat, |i: int| fill));
    v
}

/// The per-bar state of the spectrum animation: displayed height, spring
/// velocity, peak height, peak fall velocity and peak hold timer of each bar.
pub struct BarBank<S> {
    pub bars_count: usize,
    pub cur_bars: Vec<S>,
    pub velocities: Vec<S>,
    pub peaks: Vec<S>,
    pub peak_velocities: Vec<S>,
    pub peak_hold_timers: Vec<u32>,
    /// The value a new bar starts from.
    pub rest: S,
}

impl<S> BarBank<S> {
    /// Every state vector has one entry per bar.
    pub open spec fn wf(&self) -> bool {
        &&& self.cur_bars@.len() == self.bars_count
        &&& self.velocities@.len() == self.bars_count
        &&& self.peaks@.len() == self.bars_count
        &&& self.peak_velocities@.len() == self.bars_count
        &&& self.peak_hold_timers@.len() == self.bars_count
    }
}

impl<S: Copy> BarBank<S> {
    /// Bars at rest: `initial_bar_count(requested)` of them, every value `rest`
    /// and every timer 0.
    pub fn new(requested: usize, rest: S) -> (b: Self)
        ensures
            b.wf(),
            b.bars_count == if requested == 0 { DEFAULT_BAR_COUNT } else { requested },
            b.rest == rest,
            b.cur_bars@ == Seq::new(b.bars_count as nat, |i: int| rest),
            b.velocities@ == Seq::new(b.bars_count as nat, |i: int| rest),
            b.peaks@ == Seq::new(b.bars_count as nat, |i: int| rest),
            b.peak_velocities@ == Seq::new(b.bars_count as nat, |i: int| rest),
            b.peak_hold_timers@ == Seq::new(b.bars_count as nat, |i: int| 0u32),
    {
        let n = initial_bar_count(requested);
        BarBank {
            bars_count: n,
            cur_bars: filled_vec(n, rest),
            velocities: filled_vec(n, rest),
            peaks: filled_vec(n, rest),
            peak_velocities: filled_vec(n, rest),
            peak_hold_timers: filled_vec(n, 0u32),
            rest,
        }
    }

    /// Changes the number of bars to `new_count`, keeping the state of the bars
    /// that remain and starting new bars at rest; a count of 0 or the current
    /// count changes nothing.
    pub fn resize_bars(&mut self, new_count: usize)
        ensures
            final(self).rest == old(self).rest,
            (new_count == 0 || new_count == old(self).bars_count) ==> *final(self) == *old(self),
            !(new_count == 0 || new_count == old(self).bars_count) ==> {
                &&& final(self).bars_count == new_count
                &&& final(self).cur_bars@ == resized(old(self).cur_bars@, new_count as nat, old(self).rest)
                &&& final(self).velocities@ == resized(old(self).velocities@, new_count as nat, old(self).rest)
                &&& final(self).peaks@ == resized(old(self).peaks@, new_count as nat, old(self).rest)
                &&& final(self).peak_velocities@ == resized(old(self).peak_velocities@, new_count as nat, old(self).rest)
                &&& final(self).peak_hold_timers@ == resized(old(self).peak_hold_timers@, new_count as nat, 0u32)
            },
            old(self).wf() ==> final(self).wf(),
    {
        if new_count == 0 || new_count == self.bars_count {
            return;
        }
        self.bars_count = new_count;
        let rest = self.rest;
        resize_with(&mut self.cur_bars, new_count, rest);
        resize_with(&mut self.velocities, new_count, rest);
        resize_with(&mut self.peaks, new_count, rest);
        resize_with(&mut self.peak_velocities, new_count, rest);
        resize_with(&mut self.peak_hold_timers, new_count, 0u32);
    }
}

/// What a bar's peak marker does in one frame.
#[derive(Clone, Copy, Debug, PartialEq, Eq, Structural)]
pub enum PeakMotion {
    /// The bar reached the marker: the marker moves to the bar and its hold restarts.
    Capture,
    /// The marker stays put while its hold runs out.
    Hold,
    /// The hold has run out: the marker falls under gravity.
    Fall,
}

/// One frame of the peak-hold timer: given the timer and whether the bar
/// reached its peak marker, the new timer and the marker's motion.
pub open spec fn peak_step(timer: u32, reached: bool) -> (u32, PeakMotion) {
    if reached {
        (PEAK_HOLD_FRAMES, PeakMotion::Capture)
    } else if timer > 0 {
        ((timer - 1) as u32, PeakMotion::Hold)
    } else {
        (0, PeakMotion::Fall)
    }
}

/// One frame of the peak-hold timer (see `peak_step`).
pub fn peak_hold_step(timer: u32, reached: bool) -> (r: (u32, PeakMotion))
    ensures
        r == peak_step(timer, reached),
{
    if reached {
        (PEAK_HOLD_FRAMES, PeakMotion::Capture)
    } else if timer > 0 {
        (timer - 1, PeakMotion::Hold)
    } else {
        (0, PeakMotion::Fall)
    }
}

/// The timer after `k` frames in which the bar stays below its marker.
pub open spec fn timer_after(timer: u32, k: nat) -> u32
    decreases k,
{
    if k == 0 {
        timer
    } else {
        peak_step(timer_after(timer, (k - 1) as nat), false).0
    }
}

/// After a capture the marker holds for exactly `PEAK_HOLD_FRAMES` frames in
/// which the bar stays below it, and falls on the next such frame.
pub proof fn lemma_peak_holds_then_falls(k: nat)
    ensures
        k < PEAK_HOLD_FRAMES ==> peak_step(timer_after(PEAK_HOLD_FRAMES, k), false).1 == PeakMotion::Hold,
        k >= PEAK_HOLD_FRAMES ==> peak_step(timer_after(PEAK_HOLD_FRAMES, k), false).1 == PeakMotion::Fall,
        timer_after(PEAK_HOLD_FRAMES, k) == if k < PEAK_HOLD_FRAMES { PEAK_HOLD_FRAMES - k } else { 0 },
    decreases k,
{
    if k > 0 {
        lemma_peak_holds_then_falls((k - 1) as nat);
    }
}

} // verus!
