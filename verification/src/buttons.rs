//! The button interrupt handler's decision.
//!
//! The hardware exposes one edge-triggered channel per button with an
//! "event pending" flag. The interrupt handler runs at the highest
//! priority, looks at the two flags, services at most one channel, and
//! asks for one immediate execution of the render task. Querying and
//! clearing the hardware flags belongs to the caller that owns the
//! peripheral; the policy of what a press does to the shared state lives
//! here.

use vstd::prelude::*;
use crate::state::CountdownState;
use crate::state::start_spec;
use crate::state::reset_spec;

verus! {

/// Which channel one invocation of the handler serviced. The serviced
/// channel's hardware event must be cleared by the caller, and a serviced
/// press always requests one immediate render.
#[derive(Clone, Copy, PartialEq, Eq, Structural, Debug)]
pub enum ServicedButton {
    StartButton,
    ResetButton,
    NoButton,
}

/// Service one button interrupt: the start channel is checked first, and
/// if its event is pending the reset channel is not looked at on this
/// invocation (it is serviced by its own subsequent interrupt). A start
/// press begins the countdown; a reset press stops it and advances the
/// configured duration one step, wrapped.
pub fn handle_buttons(
    state: &mut CountdownState,
    start_pending: bool,
    reset_pending: bool,
) -> (serviced: ServicedButton)
    requires
        old(state).wf(),
    ensures
        final(state).wf(),
        start_pending ==> serviced == ServicedButton::StartButton
            && *final(state) == start_spec(*old(state)),
        !start_pending && reset_pending ==> serviced == ServicedButton::ResetButton
            && *final(state) == reset_spec(*old(state)),
        !start_pending && !reset_pending ==> serviced == ServicedButton::NoButton
            && *final(state) == *old(state),
        (serviced == ServicedButton::NoButton) <==> (!start_pending && !reset_pending),
{
    if start_pending {
        state.press_start();
        ServicedButton::StartButton
    } else if reset_pending {
        state.press_reset();
        ServicedButton::ResetButton
    } else {
        ServicedButton::NoButton
    }
}

} // verus!
