//! The shared countdown state and its transitions.
//!
//! Two execution contexts mutate this state on the device: the button
//! interrupt handler and the periodic render task. Every access happens
//! inside a short priority-ceiling critical section, so each transition
//! below is atomic with respect to the other context; the functions here
//! are exactly those lock-protected accesses.

use vstd::prelude::*;
use crate::MAX_TIME;
use crate::TIME_STEP;

verus! {

/// The only persistent entity of the system: whether a countdown is
/// actively ticking, and how many time units remain.
#[derive(Clone, Copy, PartialEq, Eq, Structural, Debug)]
pub struct CountdownState {
    pub running: bool,
    pub time_left: i32,
}

/// State after the start button is serviced.
pub open spec fn start_spec(s: CountdownState) -> CountdownState {
    CountdownState { running: true, time_left: s.time_left }
}

/// State after the reset/advance button is serviced: stop the countdown
/// and advance the configured duration by a fixed step, wrapped.
pub open spec fn reset_spec(s: CountdownState) -> CountdownState {
    CountdownState { running: false, time_left: ((s.time_left + TIME_STEP) % (MAX_TIME as int)) as i32 }
}

/// State and reschedule decision after one execution of the render task's
/// transition step: while running, a countdown at zero expires, otherwise
/// one time unit elapses and the task asks to run again; while stopped,
/// nothing changes and nothing is rescheduled.
pub open spec fn tick_spec(s: CountdownState) -> (CountdownState, bool) {
    if s.running {
        if s.time_left <= 0 {
            (CountdownState { running: false, time_left: s.time_left }, false)
        } else {
            (CountdownState { running: true, time_left: (s.time_left - 1) as i32 }, true)
        }
    } else {
        (s, false)
    }
}

impl CountdownState {
    /// Invariant on the shared state.
    pub open spec fn wf(self) -> bool {
        0 <= self.time_left <= MAX_TIME
    }

    /// The countdown is idle, waiting for the start button.
    pub open spec fn is_stopped(self) -> bool {
        !self.running
    }

    /// The countdown is ticking, not yet about to expire.
    pub open spec fn is_running(self) -> bool {
        self.running && self.time_left > 1
    }

    /// The countdown is ticking and expiry is imminent: the frame shows
    /// the expiry glyph in red.
    pub open spec fn is_alarm(self) -> bool {
        self.running && self.time_left <= 1
    }

    /// The boot state: stopped, with the full duration configured.
    pub fn new() -> (s: CountdownState)
        ensures
            s == (CountdownState { running: false, time_left: MAX_TIME }),
            s.wf(),
            s.is_stopped(),
    {
        CountdownState { running: false, time_left: MAX_TIME }
    }

    /// Service a start press: begin (or continue) the countdown.
    pub fn press_start(&mut self)
        requires
            old(self).wf(),
        ensures
            *final(self) == start_spec(*old(self)),
            final(self).running,
            final(self).time_left == old(self).time_left,
            final(self).wf(),
    {
        self.running = true;
    }

    /// Service a reset/advance press: stop the countdown immediately and
    /// advance the configured duration by `TIME_STEP`, modulo `MAX_TIME`,
    /// regardless of the in-flight value at the moment of the press.
    pub fn press_reset(&mut self)
        requires
            old(self).wf(),
        ensures
            *final(self) == reset_spec(*old(self)),
            !final(self).running,
            final(self).time_left == (old(self).time_left + TIME_STEP) % (MAX_TIME as int),
            0 <= final(self).time_left <= MAX_TIME - 1,
            final(self).wf(),
    {
        self.running = false;
        self.time_left = (self.time_left + TIME_STEP) % MAX_TIME;
    }

    /// The render task's transition step, acting on the state as it is at
    /// the moment of the call (never on an earlier snapshot). Returns
    /// whether the task asks to run again one time unit later.
    pub fn tick(&mut self) -> (resched: bool)
        requires
            old(self).wf(),
        ensures
            (*final(self), resched) == tick_spec(*old(self)),
            final(self).wf(),
    {
        if self.running {
            if self.time_left <= 0 {
                self.running = false;
                false
            } else {
                self.time_left = self.time_left - 1;
                true
            }
        } else {
            false
        }
    }
}

} // verus!
