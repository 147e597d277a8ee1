//! Millisecond deadline timers for the heartbeat cadence and the liveness
//! timeout. A timer never reads a clock: the caller passes the current time
//! in, so elapsing is a pure function of the recorded state.

use vstd::prelude::*;

verus! {

/// A duration and the instant it last started counting from.
pub struct Timer {
    dur: u64,
    last: u64,
}

/// Mathematical model of a `Timer`.
pub struct TimerV {
    pub dur: u64,
    pub last: u64,
}

impl View for Timer {
    type V = TimerV;

    closed spec fn view(&self) -> TimerV {
        TimerV { dur: self.dur, last: self.last }
    }
}

/// Whether a timer's duration has passed at instant `now`. An instant before
/// the last reset counts as no time passed.
pub open spec fn elapsed(t: TimerV, now: u64) -> bool {
    t.last <= now && now - t.last >= t.dur
}

impl Timer {
    /// A timer of duration `dur` milliseconds, counting from instant zero.
    pub fn new(dur: u64) -> (t: Self)
        ensures
            t@.dur == dur,
            t@.last == 0,
    {
        Timer { dur, last: 0 }
    }

    /// Starts the timer counting from `now`.
    pub fn reset(&mut self, now: u64)
        ensures
            final(self)@.dur == old(self)@.dur,
            final(self)@.last == now,
    {
        self.last = now;
    }

    /// Interval tick: reports whether the duration has passed and, when it
    /// has, restarts the count from `now`.
    pub fn tick(&mut self, now: u64) -> (r: bool)
        ensures
            r == elapsed(old(self)@, now),
            r ==> final(self)@.dur == old(self)@.dur && final(self)@.last == now,
            !r ==> final(self)@ == old(self)@,
    {
        if self.last <= now && now - self.last >= self.dur {
            self.last = now;
            true
        } else {
            false
        }
    }

    /// Deadline check: reports whether the duration has passed, without
    /// restarting the count.
    pub fn tmout(&self, now: u64) -> (r: bool)
        ensures
            r == elapsed(self@, now),
    {
        self.last <= now && now - self.last >= self.dur
    }
}

} // verus!
