//! The per-frame countdown timer.
//!
//! Each animated entity owns one timer scoped to its current frame: the timer
//! counts elapsed virtual time towards the frame's display duration and
//! reports the tick on which the interval just elapsed. The driver keeps the
//! timer's duration equal to the current frame's duration by restarting the
//! timer on every successful advance.

use vstd::prelude::*;

verus! {

/// The mathematical state of a frame timer.
#[derive(PartialEq, Eq, Structural)]
pub struct TimerModel {
    pub duration_micros: u64,
    pub elapsed_micros: u64,
    pub just_finished: bool,
}

impl TimerModel {
    /// A timer is well formed when its interval is positive and the elapsed
    /// time never runs past the interval.
    pub open spec fn wf(self) -> bool {
        &&& self.duration_micros > 0
        &&& self.elapsed_micros <= self.duration_micros
    }

    /// A timer that has just been started on an interval of `duration_micros`.
    pub open spec fn fresh(duration_micros: u64) -> TimerModel {
        TimerModel { duration_micros, elapsed_micros: 0, just_finished: false }
    }

    /// The timer after one advance by `delta_micros` of virtual time: elapsed
    /// time accumulates and saturates at the interval, and `just_finished`
    /// reports exactly the advance that first reaches the interval. A paused
    /// clock delivers a zero delta, which never completes an interval.
    pub open spec fn ticked(self, delta_micros: u64) -> TimerModel {
        if self.elapsed_micros + delta_micros >= self.duration_micros {
            TimerModel {
                elapsed_micros: self.duration_micros,
                just_finished: self.elapsed_micros < self.duration_micros,
                ..self
            }
        } else {
            TimerModel {
                elapsed_micros: (self.elapsed_micros + delta_micros) as u64,
                just_finished: false,
                ..self
            }
        }
    }

    /// Whether an advance by `delta_micros` would complete the interval.
    pub open spec fn fires(self, delta_micros: u64) -> bool {
        self.ticked(delta_micros).just_finished
    }
}

/// The countdown clock bound to one entity's current animation frame.
pub struct SpriteAnimationTimer {
    duration_micros: u64,
    elapsed_micros: u64,
    just_finished: bool,
}

impl View for SpriteAnimationTimer {
    type V = TimerModel;

    closed spec fn view(&self) -> TimerModel {
        TimerModel {
            duration_micros: self.duration_micros,
            elapsed_micros: self.elapsed_micros,
            just_finished: self.just_finished,
        }
    }
}

impl SpriteAnimationTimer {
    /// Starts a timer on an interval of `duration_micros`.
    pub fn from_micros(duration_micros: u64) -> (timer: Self)
        requires
            duration_micros > 0,
        ensures
            timer@ == TimerModel::fresh(duration_micros),
            timer@.wf(),
    {
        Self { duration_micros, elapsed_micros: 0, just_finished: false }
    }

    /// Advances the timer by `delta_micros` of virtual time.
    pub fn tick(&mut self, delta_micros: u64)
        requires
            old(self)@.wf(),
        ensures
            final(self)@ == old(self)@.ticked(delta_micros),
            final(self)@.wf(),
    {
        let remaining = self.duration_micros - self.elapsed_micros;
        if delta_micros >= remaining {
            self.just_finished = self.elapsed_micros < self.duration_micros;
            self.elapsed_micros = self.duration_micros;
        } else {
            self.elapsed_micros = self.elapsed_micros + delta_micros;
            self.just_finished = false;
        }
    }

    /// Whether the most recent advance completed the interval.
    pub fn just_finished(&self) -> (finished: bool)
        ensures
            finished == self@.just_finished,
    {
        self.just_finished
    }

    /// Rewinds the elapsed time to zero, keeping the interval.
    pub fn reset(&mut self)
        ensures
            final(self)@ == TimerModel::fresh(old(self)@.duration_micros),
    {
        self.elapsed_micros = 0;
        self.just_finished = false;
    }

    /// Starts the timer over on a new interval; any overshoot time from a
    /// completed interval is discarded, not carried into the new countdown.
    pub fn restart(&mut self, duration_micros: u64)
        requires
            duration_micros > 0,
        ensures
            final(self)@ == TimerModel::fresh(duration_micros),
            final(self)@.wf(),
    {
        self.duration_micros = duration_micros;
        self.elapsed_micros = 0;
        self.just_finished = false;
    }

    pub fn duration_micros(&self) -> (duration: u64)
        ensures
            duration == self@.duration_micros,
    {
        self.duration_micros
    }

    pub fn elapsed_micros(&self) -> (elapsed: u64)
        ensures
            elapsed == self@.elapsed_micros,
    {
        self.elapsed_micros
    }
}

} // verus!
