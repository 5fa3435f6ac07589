//! Countdown timers advanced once per frame.

use vstd::prelude::*;

verus! {

/// Nanoseconds in one second.
pub const NANOS_PER_SECOND: u64 = 1_000_000_000;

/// What a timer does when its duration has elapsed.
#[derive(Clone, Copy, Debug, PartialEq, Eq, Structural)]
pub enum TimerMode {
    /// Finish once and stay finished.
    Once,
    /// Finish, start over with the time left over, and finish again.
    Repeating,
}

/// A timer that is advanced by the time of each frame. All times are in
/// nanoseconds.
#[derive(Clone, Copy, Debug, PartialEq, Eq, Structural)]
pub struct Timer {
    /// Time from start to finish.
    pub duration: u64,
    /// Time counted so far; never counts past what a `u64` holds.
    pub elapsed: u64,
    pub mode: TimerMode,
    /// A one-shot timer: it has finished. A repeating timer: it finished
    /// during the last tick.
    pub finished: bool,
    /// The timer finished during the last tick.
    pub just_finished: bool,
}

impl Timer {
    /// A fresh timer of the given duration.
    pub open spec fn spec_new(duration: u64, mode: TimerMode) -> Timer {
        Timer { duration, elapsed: 0, mode, finished: false, just_finished: false }
    }

    /// The timer after a frame of `delta` nanoseconds.
    pub open spec fn spec_tick(self, delta: u64) -> Timer {
        if self.mode == TimerMode::Once && self.finished {
            Timer { just_finished: false, ..self }
        } else if self.elapsed + delta >= self.duration {
            Timer {
                elapsed: match self.mode {
                    TimerMode::Once => self.duration,
                    TimerMode::Repeating => if self.duration == 0 {
                        0
                    } else if self.elapsed + delta > u64::MAX {
                        (u64::MAX % self.duration) as u64
                    } else {
                        ((self.elapsed + delta) % self.duration as int) as u64
                    },
                },
                finished: true,
                just_finished: true,
                ..self
            }
        } else {
            Timer {
                elapsed: (self.elapsed + delta) as u64,
                finished: false,
                just_finished: false,
                ..self
            }
        }
    }

    /// Time left until the timer finishes.
    pub open spec fn spec_remaining(self) -> u64 {
        if self.elapsed >= self.duration {
            0
        } else {
            (self.duration - self.elapsed) as u64
        }
    }

    pub fn new(duration: u64, mode: TimerMode) -> (timer: Timer)
        ensures
            timer == Timer::spec_new(duration, mode),
    {
        Timer { duration, elapsed: 0, mode, finished: false, just_finished: false }
    }

    /// A fresh timer of `seconds` seconds; a duration beyond what a `u64` of
    /// nanoseconds holds is that maximum.
    pub fn from_seconds(seconds: u64, mode: TimerMode) -> (timer: Timer)
        ensures
            timer == Timer::spec_new(
                if seconds * NANOS_PER_SECOND > u64::MAX {
                    u64::MAX
                } else {
                    (seconds * NANOS_PER_SECOND) as u64
                },
                mode,
            ),
    {
        let duration = match seconds.checked_mul(NANOS_PER_SECOND) {
            Some(nanos) => nanos,
            None => u64::MAX,
        };
        Timer::new(duration, mode)
    }

    /// Advances the timer by a frame of `delta` nanoseconds.
    pub fn tick(&mut self, delta: u64)
        ensures
            *final(self) == old(self).spec_tick(delta),
    {
        if self.mode == TimerMode::Once && self.finished {
            self.just_finished = false;
            return ;
        }
        let elapsed = self.elapsed.saturating_add(delta);
        if elapsed >= self.duration {
            self.elapsed = match self.mode {
                TimerMode::Once => self.duration,
                TimerMode::Repeating => if self.duration == 0 {
                    0
                } else {
                    elapsed % self.duration
                },
            };
            self.finished = true;
            self.just_finished = true;
        } else {
            self.elapsed = elapsed;
            self.finished = false;
            self.just_finished = false;
        }
    }

    pub fn finished(&self) -> (finished: bool)
        ensures
            finished == self.finished,
    {
        self.finished
    }

    pub fn just_finished(&self) -> (just_finished: bool)
        ensures
            just_finished == self.just_finished,
    {
        self.just_finished
    }

    /// Time left until the timer finishes.
    pub fn remaining(&self) -> (remaining: u64)
        ensures
            remaining == self.spec_remaining(),
    {
        self.duration.saturating_sub(self.elapsed)
    }
}

/// A running one-shot timer finishes in the very tick in which the time
/// counted reaches its duration, and keeps counting until then.
pub proof fn lemma_once_timer_tick(timer: Timer, delta: u64)
    requires
        timer.mode == TimerMode::Once,
        !timer.finished,
    ensures
        timer.spec_tick(delta).finished <==> timer.elapsed + delta >= timer.duration,
        !timer.spec_tick(delta).finished ==> timer.spec_tick(delta).elapsed == timer.elapsed
            + delta,
        timer.spec_tick(delta).just_finished == timer.spec_tick(delta).finished,
        timer.spec_tick(delta).duration == timer.duration,
        timer.spec_tick(delta).mode == timer.mode,
{
}

/// A finished one-shot timer stays finished whatever time passes.
pub proof fn lemma_once_timer_stays_finished(timer: Timer, delta: u64)
    requires
        timer.mode == TimerMode::Once,
        timer.finished,
    ensures
        timer.spec_tick(delta).finished,
        !timer.spec_tick(delta).just_finished,
{
}

} // verus!
