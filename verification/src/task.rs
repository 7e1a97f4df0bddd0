//! One execution of the tick/render task.
//!
//! The task snapshots the shared state one field at a time, computes the
//! frame for that snapshot, and then performs the transition step on the
//! state as it stands at that moment. On the device the snapshot and the
//! transition are the task's two lock-protected accesses; the drawing in
//! between is unlocked and may take arbitrarily long. The transition never
//! uses the snapshot: a button press that preempts the task between the
//! two accesses is fully honored by the transition.

use vstd::prelude::*;
use crate::state::CountdownState;
use crate::state::tick_spec;
use crate::render::Frame;
use crate::render::frame_spec;
use crate::render::render_frame;

verus! {

/// Run one tick/render execution: compute the frame for the current state
/// and apply the transition step. Returns the frame to draw and whether
/// the task asks to be scheduled again one time unit later.
pub fn update_display(state: &mut CountdownState) -> (r: (Frame, bool))
    requires
        old(state).wf(),
    ensures
        r.0 == frame_spec(old(state).running, old(state).time_left as int),
        (*final(state), r.1) == tick_spec(*old(state)),
        final(state).wf(),
{
    let running: bool = state.running;
    let time_left: i32 = state.time_left;
    let frame: Frame = render_frame(running, time_left);
    let resched: bool = state.tick();
    (frame, resched)
}

} // verus!
