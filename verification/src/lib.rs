//! Core of a two-button countdown-timer appliance.
//!
//! The library holds everything the device decides: the shared countdown
//! state and its transitions, the button-service policy, the frame that one
//! render pass draws, and the one-shot scheduling slot for the render task.
//! Hardware bring-up and the actual pixel pushing live outside, in the
//! binary that drives a concrete display.

use vstd::prelude::*;

pub mod buttons;
pub mod render;
pub mod sched;
pub mod state;
pub mod system;
pub mod task;

pub use state::CountdownState;

verus! {

/// Maximum countdown duration, in abstract time units (nominally seconds).
pub const MAX_TIME: i32 = 50;

/// Fixed increment the reset/advance button adds while stopped.
pub const TIME_STEP: i32 = 5;

/// Logical screen width in pixels.
pub const SCREEN_WIDTH: i32 = 240;

/// Logical screen height in pixels.
pub const SCREEN_HEIGHT: i32 = 240;

/// Logical screen center coordinate.
pub const CENTER: i32 = 120;

} // verus!
