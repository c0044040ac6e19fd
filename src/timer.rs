//! Countdown timers measured in whole milliseconds.
//!
//! A timer counts elapsed time up to its duration. A repeating timer wraps
//! around and records how many times it went off during the last tick; a
//! one-shot timer stops at its duration. A paused timer ignores ticks.
use vstd::prelude::*;

verus! {

/// A countdown timer.
#[derive(Clone, Copy, Debug, PartialEq, Eq, Structural)]
pub struct Timer {
    pub duration_ms: u64,
    pub elapsed_ms: u64,
    pub repeating: bool,
    pub paused: bool,
    pub finished: bool,
    pub times_finished: u64,
}

impl Timer {
    /// Whether the timer can be ticked: its duration is not zero.
    pub open spec fn wf(&self) -> bool {
        self.duration_ms > 0
    }

    /// A fresh timer of the given duration, running, with nothing elapsed.
    pub open spec fn fresh(duration_ms: u64, repeating: bool) -> Timer {
        Timer {
            duration_ms,
            elapsed_ms: 0,
            repeating,
            paused: false,
            finished: false,
            times_finished: 0,
        }
    }

    /// The timer after `dt_ms` more milliseconds have passed.
    pub open spec fn ticked(self, dt_ms: u64) -> Timer {
        if self.paused {
            self
        } else if !self.repeating && self.finished {
            Timer { times_finished: 0, ..self }
        } else {
            let e = if self.elapsed_ms + dt_ms > u64::MAX {
                u64::MAX as int
            } else {
                self.elapsed_ms + dt_ms
            };
            if e < self.duration_ms {
                Timer { elapsed_ms: e as u64, finished: false, times_finished: 0, ..self }
            } else if self.repeating {
                Timer {
                    elapsed_ms: (e % self.duration_ms as int) as u64,
                    finished: true,
                    times_finished: (e / self.duration_ms as int) as u64,
                    ..self
                }
            } else {
                Timer { elapsed_ms: self.duration_ms, finished: true, times_finished: 1, ..self }
            }
        }
    }

    /// A timer of `duration_ms` milliseconds that has not started.
    pub fn from_millis(duration_ms: u64, repeating: bool) -> (r: Timer)
        requires
            duration_ms > 0,
        ensures
            r == Timer::fresh(duration_ms, repeating),
            r.wf(),
    {
        Timer {
            duration_ms,
            elapsed_ms: 0,
            repeating,
            paused: false,
            finished: false,
            times_finished: 0,
        }
    }

    /// Lets `dt_ms` milliseconds pass (elapsed time saturates at `u64::MAX`).
    pub fn tick(&mut self, dt_ms: u64)
        requires
            old(self).wf(),
        ensures
            *final(self) == old(self).ticked(dt_ms),
            final(self).wf(),
    {
        if self.paused {
            return;
        }
        if !self.repeating && self.finished {
            self.times_finished = 0;
            return;
        }
        let e = self.elapsed_ms.saturating_add(dt_ms);
        if e < self.duration_ms {
            self.elapsed_ms = e;
            self.finished = false;
            self.times_finished = 0;
        } else if self.repeating {
            self.elapsed_ms = e % self.duration_ms;
            self.finished = true;
            self.times_finished = e / self.duration_ms;
        } else {
            self.elapsed_ms = self.duration_ms;
            self.finished = true;
            self.times_finished = 1;
        }
    }

    /// Whether the timer reached its duration on its last tick (a one-shot
    /// timer stays finished).
    pub fn finished(&self) -> (r: bool)
        ensures
            r == self.finished,
    {
        self.finished
    }

    /// Whether the timer went off during its last tick.
    pub fn just_finished(&self) -> (r: bool)
        ensures
            r == (self.times_finished > 0),
    {
        self.times_finished > 0
    }

    pub fn paused(&self) -> (r: bool)
        ensures
            r == self.paused,
    {
        self.paused
    }

    pub fn duration(&self) -> (r: u64)
        ensures
            r == self.duration_ms,
    {
        self.duration_ms
    }

    /// Sets the duration; the elapsed time is kept.
    pub fn set_duration(&mut self, duration_ms: u64)
        requires
            duration_ms > 0,
        ensures
            *final(self) == (Timer { duration_ms, ..*old(self) }),
            final(self).wf(),
    {
        self.duration_ms = duration_ms;
    }

    pub fn pause(&mut self)
        ensures
            *final(self) == (Timer { paused: true, ..*old(self) }),
    {
        self.paused = true;
    }

    pub fn unpause(&mut self)
        ensures
            *final(self) == (Timer { paused: false, ..*old(self) }),
    {
        self.paused = false;
    }

    /// Clears the elapsed time and the finished state; pausing is kept.
    pub fn reset(&mut self)
        ensures
            *final(self) == (Timer {
                elapsed_ms: 0,
                finished: false,
                times_finished: 0,
                ..*old(self)
            }),
    {
        self.elapsed_ms = 0;
        self.finished = false;
        self.times_finished = 0;
    }
}

} // verus!
