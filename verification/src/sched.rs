//! The one-shot scheduling slot for the render task.
//!
//! The dispatcher can hold at most one outstanding execution request for
//! the render task, whether immediate (from a button press) or delayed by
//! one time unit (from the task rescheduling itself). Requesting a second
//! execution while one is outstanding is a scheduling conflict; the
//! reference discipline treats it as fatal, so `request` reports it and a
//! separate coalescing variant drops the redundant request instead.

use vstd::prelude::*;

verus! {

/// The fatal error taxonomy of the appliance. There is no local recovery:
/// each of these halts the device.
#[derive(Clone, Copy, PartialEq, Eq, Structural, Debug)]
pub enum FatalError {
    /// A peripheral failed to initialize before normal operation began.
    HardwareInit,
    /// The display collaborator rejected a drawing primitive.
    Draw,
    /// A render execution was requested while one was still outstanding.
    SchedulingConflict,
}

/// The dispatcher's slot for the render task: whether one execution
/// request is outstanding.
#[derive(Clone, Copy, PartialEq, Eq, Structural, Debug)]
pub struct RenderSchedule {
    pub pending: bool,
}

impl RenderSchedule {
    /// At boot no render is requested yet.
    pub fn new() -> (s: RenderSchedule)
        ensures
            !s.pending,
    {
        RenderSchedule { pending: false }
    }

    /// Request one execution of the render task. Fails with a scheduling
    /// conflict, leaving the slot as it was, exactly when a request is
    /// already outstanding.
    pub fn request(&mut self) -> (r: Result<(), FatalError>)
        ensures
            !old(self).pending ==> r == Ok::<(), FatalError>(()) && final(self).pending,
            old(self).pending ==> r == Err::<(), FatalError>(FatalError::SchedulingConflict)
                && *final(self) == *old(self),
    {
        if self.pending {
            Err(FatalError::SchedulingConflict)
        } else {
            self.pending = true;
            Ok(())
        }
    }

    /// Request one execution, coalescing with an outstanding request: a
    /// redundant request is dropped rather than treated as a fault.
    pub fn request_coalescing(&mut self)
        ensures
            final(self).pending,
    {
        self.pending = true;
    }

    /// The dispatcher takes the outstanding request to run the task.
    /// Returns whether there was one to take.
    pub fn take(&mut self) -> (was_pending: bool)
        ensures
            !final(self).pending,
            was_pending == old(self).pending,
    {
        let was: bool = self.pending;
        self.pending = false;
        was
    }
}

} // verus!
