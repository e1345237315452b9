use vstd::prelude::*;

verus! {

/// A countdown over microseconds, one-shot or repeating.
///
/// A one-shot timer stops at its duration and stays finished until `reset`;
/// a repeating timer wraps its elapsed time around the duration.
#[derive(Clone, Copy, Debug, PartialEq, Eq, Structural)]
pub struct Timer {
    pub duration: u64,
    pub elapsed: u64,
    pub repeating: bool,
    pub finished: bool,
    pub just_finished: bool,
}

/// The state of `t` after `dt` microseconds have passed.
pub open spec fn ticked(t: Timer, dt: u64) -> Timer {
    if !t.repeating && t.finished {
        Timer { just_finished: false, ..t }
    } else {
        let e = t.elapsed + dt;
        if e >= t.duration {
            if !t.repeating {
                Timer { elapsed: t.duration, finished: true, just_finished: true, ..t }
            } else if t.duration == 0 {
                Timer { elapsed: 0, finished: true, just_finished: true, ..t }
            } else {
                Timer { elapsed: (e % (t.duration as int)) as u64, finished: true, just_finished: true, ..t }
            }
        } else {
            Timer { elapsed: e as u64, finished: false, just_finished: false, ..t }
        }
    }
}

/// `t` restarted from zero, keeping its duration and mode.
pub open spec fn restarted(t: Timer) -> Timer {
    Timer { elapsed: 0, finished: false, just_finished: false, ..t }
}

/// A one-shot timer whose flag agrees with its count: finished exactly when
/// the elapsed time has reached the duration.
pub open spec fn consistent(t: Timer) -> bool {
    &&& !t.repeating
    &&& t.finished ==> t.elapsed == t.duration
    &&& !t.finished ==> t.elapsed < t.duration
}

impl Timer {
    /// A fresh timer of `duration` microseconds.
    pub fn from_micros(duration: u64, repeating: bool) -> (r: Timer)
        ensures
            r == restarted(Timer { duration, elapsed: 0, repeating, finished: false, just_finished: false }),
    {
        Timer { duration, elapsed: 0, repeating, finished: false, just_finished: false }
    }

    /// Advances the timer by `dt` microseconds.
    pub fn tick(&mut self, dt: u64)
        ensures
            *final(self) == ticked(*old(self), dt),
    {
        if !self.repeating && self.finished {
            self.just_finished = false;
            return;
        }
        let e: u128 = self.elapsed as u128 + dt as u128;
        if e >= self.duration as u128 {
            if !self.repeating {
                self.elapsed = self.duration;
            } else if self.duration == 0 {
                self.elapsed = 0;
            } else {
                let rem: u128 = e % (self.duration as u128);
                self.elapsed = rem as u64;
            }
            self.finished = true;
            self.just_finished = true;
        } else {
            self.elapsed = e as u64;
            self.finished = false;
            self.just_finished = false;
        }
    }

    /// Whether the timer has reached its duration (a one-shot timer stays so).
    pub fn finished(&self) -> (r: bool)
        ensures
            r == self.finished,
    {
        self.finished
    }

    /// Whether the last tick reached the duration.
    pub fn just_finished(&self) -> (r: bool)
        ensures
            r == self.just_finished,
    {
        self.just_finished
    }

    /// Restarts the count from zero.
    pub fn reset(&mut self)
        ensures
            *final(self) == restarted(*old(self)),
    {
        self.elapsed = 0;
        self.finished = false;
        self.just_finished = false;
    }

    /// Changes the target duration without touching the elapsed time.
    pub fn set_duration(&mut self, duration: u64)
        ensures
            *final(self) == (Timer { duration, ..*old(self) }),
    {
        self.duration = duration;
    }
}

/// A one-shot timer that has just fired does not fire again on the next tick
/// unless it is reset in between.
pub proof fn lemma_one_shot_fires_once(t: Timer, dt1: u64, dt2: u64)
    requires
        !t.repeating,
        ticked(t, dt1).just_finished,
    ensures
        !ticked(ticked(t, dt1), dt2).just_finished,
{
}

/// A consistent one-shot timer fires on a tick exactly when the tick carries
/// its count from below the duration to the duration, and stays consistent.
pub proof fn lemma_one_shot_fires_exactly(t: Timer, dt: u64)
    requires
        consistent(t),
    ensures
        ticked(t, dt).just_finished <==> (t.elapsed < t.duration && t.duration <= t.elapsed + dt),
        consistent(ticked(t, dt)),
{
}

/// A one-shot timer of positive duration that was just restarted does not
/// fire on a tick shorter than its duration.
pub proof fn lemma_restart_rearms(t: Timer, dt: u64)
    requires
        !t.repeating,
        dt < t.duration,
    ensures
        !ticked(restarted(t), dt).just_finished,
        ticked(restarted(t), dt).elapsed == dt,
{
}

} // verus!
