use vstd::prelude::*;

verus! {

/// Length of a day, in milliseconds.
pub const DAY_LENGTH_MS: u64 = 180_000;

/// Period of the explosion check, in milliseconds.
pub const PRESSURE_CHECK_MS: u64 = 2_000;

/// Period of the animation frame step, in milliseconds.
pub const ANIMATION_MS: u64 = 125;

/// A countdown over milliseconds, run once or repeating.
#[derive(Debug, Clone, Copy, PartialEq, Eq, Structural)]
pub struct Timer {
    pub duration: u64,
    pub elapsed: u64,
    pub repeating: bool,
    pub finished: bool,
}

/// The timer after `dt` more milliseconds, and whether it finished during
/// them. A timer run once stops at its duration and finishes once; a
/// repeating one wraps around.
pub open spec fn timer_tick_spec(t: Timer, dt: int) -> (Timer, bool) {
    if t.repeating {
        let e = t.elapsed + dt;
        if e >= t.duration {
            (Timer { elapsed: (e % (t.duration as int)) as u64, finished: true, ..t }, true)
        } else {
            (Timer { elapsed: e as u64, finished: false, ..t }, false)
        }
    } else if t.finished {
        (t, false)
    } else {
        let e = if t.elapsed + dt > t.duration {
            t.duration as int
        } else {
            t.elapsed + dt
        };
        (Timer { elapsed: e as u64, finished: e >= t.duration, ..t }, e >= t.duration)
    }
}

impl Timer {
    pub open spec fn wf(self) -> bool {
        &&& self.duration > 0
        &&& self.elapsed <= self.duration
        &&& self.repeating ==> self.elapsed < self.duration
        &&& !self.repeating ==> (self.finished <==> self.elapsed == self.duration)
    }

    pub fn new(duration: u64, repeating: bool) -> (r: Timer)
        requires
            duration > 0,
        ensures
            r.wf(),
            r == (Timer { duration, elapsed: 0, repeating, finished: false }),
    {
        Timer { duration, elapsed: 0, repeating, finished: false }
    }

    /// Advances the timer by `dt` milliseconds; returns whether it finished
    /// during them.
    pub fn tick(&mut self, dt: u64) -> (just_finished: bool)
        requires
            old(self).wf(),
        ensures
            final(self).wf(),
            (*final(self), just_finished) == timer_tick_spec(*old(self), dt as int),
    {
        let e = self.elapsed as u128 + dt as u128;
        if self.repeating {
            if e >= self.duration as u128 {
                self.elapsed = (e % self.duration as u128) as u64;
                self.finished = true;
                true
            } else {
                self.elapsed = e as u64;
                self.finished = false;
                false
            }
        } else if self.finished {
            false
        } else {
            if e >= self.duration as u128 {
                self.elapsed = self.duration;
                self.finished = true;
                true
            } else {
                self.elapsed = e as u64;
                false
            }
        }
    }

    /// Thousandths of the duration still to run.
    pub fn fraction_remaining(&self) -> (r: u64)
        requires
            self.wf(),
        ensures
            r == (self.duration - self.elapsed) * 1000 / (self.duration as int),
            r <= 1000,
    {
        let left = (self.duration - self.elapsed) as u128;
        assert(left * 1000 / (self.duration as int) <= 1000) by (nonlinear_arith)
            requires
                0 <= left <= self.duration,
                self.duration > 0,
        ;
        (left * 1000 / self.duration as u128) as u64
    }
}

/// Where a run stands. Every state but `Running` is final.
#[derive(Debug, Clone, Copy, PartialEq, Eq, Structural)]
pub enum Outcome {
    Running,
    Won,
    Lost,
    Exploded,
}

/// The outcome after a clock step: the end of the day decides between
/// `Won` (power strictly above target) and `Lost`; otherwise a pressure
/// check at or above the maximum explodes the reactor.
pub open spec fn next_outcome(
    day_done: bool,
    check_done: bool,
    power: int,
    target: int,
    pressure: int,
    max_pressure: int,
) -> Outcome {
    if day_done {
        if power > target {
            Outcome::Won
        } else {
            Outcome::Lost
        }
    } else if check_done && pressure >= max_pressure {
        Outcome::Exploded
    } else {
        Outcome::Running
    }
}

/// The day countdown and the repeating pressure check.
#[derive(Debug, Clone, Copy, PartialEq, Eq, Structural)]
pub struct Clock {
    pub countdown: Timer,
    pub pressure_check: Timer,
}

impl Clock {
    pub open spec fn wf(self) -> bool {
        &&& self.countdown.wf()
        &&& !self.countdown.repeating
        &&& self.pressure_check.wf()
        &&& self.pressure_check.repeating
    }

    pub open spec fn new_spec(day_ms: u64, check_ms: u64) -> Clock {
        Clock {
            countdown: Timer { duration: day_ms, elapsed: 0, repeating: false, finished: false },
            pressure_check: Timer { duration: check_ms, elapsed: 0, repeating: true, finished: false },
        }
    }

    /// A fresh day: the countdown of `day_ms` and a check every `check_ms`.
    pub fn new(day_ms: u64, check_ms: u64) -> (r: Clock)
        requires
            day_ms > 0,
            check_ms > 0,
        ensures
            r.wf(),
            r == Clock::new_spec(day_ms, check_ms),
    {
        Clock { countdown: Timer::new(day_ms, false), pressure_check: Timer::new(check_ms, true) }
    }

    /// Advances both timers by `dt` milliseconds and returns the outcome
    /// they decide on from the given power and pressure.
    pub fn advance(&mut self, dt: u64, power: u64, target: u64, pressure: u64, max_pressure: u64) -> (r: Outcome)
        requires
            old(self).wf(),
        ensures
            final(self).wf(),
            final(self).countdown == timer_tick_spec(old(self).countdown, dt as int).0,
            final(self).pressure_check == timer_tick_spec(old(self).pressure_check, dt as int).0,
            r == next_outcome(
                timer_tick_spec(old(self).countdown, dt as int).1,
                timer_tick_spec(old(self).pressure_check, dt as int).1,
                power as int,
                target as int,
                pressure as int,
                max_pressure as int,
            ),
    {
        let day_done = self.countdown.tick(dt);
        let check_done = self.pressure_check.tick(dt);
        if day_done {
            if power > target {
                Outcome::Won
            } else {
                Outcome::Lost
            }
        } else if check_done && pressure >= max_pressure {
            Outcome::Exploded
        } else {
            Outcome::Running
        }
    }
}

} // verus!
