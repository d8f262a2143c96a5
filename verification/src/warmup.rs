//! The warm-up counter of a session.
//!
//! Capture starts in the middle of a stream. Until the first synchronization
//! frame has gone by, what the decoder hands out may be no valid picture.
//! The counter tells how many frames the session has seen, up to a
//! threshold, so that it is known of each frame whether it came after the
//! warm-up. It suppresses nothing: what is done with an early frame is for
//! the caller to decide.

use vstd::prelude::*;

verus! {

/// The mathematical state of a warm-up counter.
pub struct WarmupView {
    /// Frames counted so far; it stops at the threshold.
    pub seen: nat,
    /// Number of frames that make up the warm-up.
    pub threshold: nat,
}

impl WarmupView {
    /// A counter that has seen nothing.
    pub open spec fn fresh(threshold: nat) -> WarmupView {
        WarmupView { seen: 0, threshold }
    }

    /// Whether the warm-up is over: the next frame comes after it.
    pub open spec fn complete(self) -> bool {
        self.seen >= self.threshold
    }

    /// The counter after one more frame.
    pub open spec fn recorded(self) -> WarmupView {
        if self.seen < self.threshold {
            WarmupView { seen: self.seen + 1, threshold: self.threshold }
        } else {
            self
        }
    }

    /// The counter after `n` more frames.
    pub open spec fn recorded_times(self, n: nat) -> WarmupView
        decreases n,
    {
        if n == 0 {
            self
        } else {
            self.recorded().recorded_times((n - 1) as nat)
        }
    }
}

/// Counts the frames of a session up to a threshold.
#[derive(Clone, Copy, Debug, PartialEq, Eq)]
pub struct WarmupCounter {
    seen: u32,
    threshold: u32,
}

impl View for WarmupCounter {
    type V = WarmupView;

    closed spec fn view(&self) -> WarmupView {
        WarmupView { seen: self.seen as nat, threshold: self.threshold as nat }
    }
}

impl WarmupCounter {
    /// A counter for a session that is about to start.
    pub fn new(threshold: u32) -> (counter: WarmupCounter)
        ensures
            counter@ == WarmupView::fresh(threshold as nat),
    {
        WarmupCounter { seen: 0, threshold }
    }

    /// Starts over, for a session that starts over.
    pub fn reset(&mut self)
        ensures
            final(self)@ == WarmupView::fresh(old(self)@.threshold),
    {
        self.seen = 0;
    }

    /// Counts one frame. The count rises by one until it has reached the
    /// threshold, and stays there.
    pub fn record_frame(&mut self)
        ensures
            final(self)@ == old(self)@.recorded(),
    {
        if self.seen < self.threshold {
            self.seen = self.seen + 1;
        }
    }

    /// Whether the warm-up is over.
    pub fn is_complete(&self) -> (b: bool)
        ensures
            b == self@.complete(),
    {
        self.seen >= self.threshold
    }

    /// Frames counted so far.
    pub fn frames_seen(&self) -> (n: u32)
        ensures
            n == self@.seen,
    {
        self.seen
    }

    /// Number of frames that make up the warm-up.
    pub fn threshold(&self) -> (n: u32)
        ensures
            n == self@.threshold,
    {
        self.threshold
    }
}

/// The count never falls, never passes the threshold once it is below or at
/// it, and the threshold never changes.
pub proof fn lemma_count_is_monotonic(w: WarmupView)
    ensures
        w.recorded().seen >= w.seen,
        w.recorded().seen <= w.seen + 1,
        w.recorded().threshold == w.threshold,
        w.seen <= w.threshold ==> w.recorded().seen <= w.threshold,
        w.complete() ==> w.recorded() == w,
{
}

/// After `n` frames a fresh counter stands at `n` or at the threshold,
/// whichever is less; so the warm-up is over exactly when `n` has reached
/// the threshold.
pub proof fn lemma_count_after(threshold: nat, n: nat)
    ensures
        WarmupView::fresh(threshold).recorded_times(n).threshold == threshold,
        WarmupView::fresh(threshold).recorded_times(n).seen == if n <= threshold {
            n
        } else {
            threshold
        },
        WarmupView::fresh(threshold).recorded_times(n).complete() <==> n >= threshold,
{
    lemma_count_from(WarmupView::fresh(threshold), n);
}

/// After `n` more frames a counter that is within its threshold stands `n`
/// higher, or at the threshold.
pub proof fn lemma_count_from(w: WarmupView, n: nat)
    requires
        w.seen <= w.threshold,
    ensures
        w.recorded_times(n).threshold == w.threshold,
        w.recorded_times(n).seen == if w.seen + n <= w.threshold {
            w.seen + n
        } else {
            w.threshold
        },
    decreases n,
{
    if n > 0 {
        lemma_count_from(w.recorded(), (n - 1) as nat);
    }
}

} // verus!
