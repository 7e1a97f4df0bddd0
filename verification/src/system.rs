//! The system as a whole: which states the appliance can reach.
//!
//! On the device, three things ever touch the shared state, each one an
//! atomic lock-protected transition: a start press, a reset press, and
//! the render task's transition step. A behavior of the system is a
//! sequence of these events applied to the boot state; the proofs below
//! state what holds of every such behavior.

use vstd::prelude::*;
use vstd::arithmetic::div_mod::lemma_add_mod_noop;
use crate::MAX_TIME;
use crate::TIME_STEP;
use crate::state::CountdownState;
use crate::state::start_spec;
use crate::state::reset_spec;
use crate::state::tick_spec;

verus! {

/// One atomic transition of the shared state.
#[derive(Clone, Copy, PartialEq, Eq, Structural, Debug)]
pub enum Event {
    PressStart,
    PressReset,
    RunRender,
}

/// The state after one event.
pub open spec fn step_spec(s: CountdownState, e: Event) -> CountdownState {
    match e {
        Event::PressStart => start_spec(s),
        Event::PressReset => reset_spec(s),
        Event::RunRender => tick_spec(s).0,
    }
}

/// The state after a sequence of events, first event first.
pub open spec fn run_spec(s: CountdownState, events: Seq<Event>) -> CountdownState
    decreases events.len(),
{
    if events.len() == 0 {
        s
    } else {
        run_spec(step_spec(s, events[0]), events.drop_first())
    }
}

/// Every single transition preserves the state invariant, and a reset
/// transition leaves the time strictly below the maximum.
pub proof fn lemma_step_wf(s: CountdownState, e: Event)
    requires
        s.wf(),
    ensures
        step_spec(s, e).wf(),
        e == Event::PressReset ==> 0 <= step_spec(s, e).time_left <= MAX_TIME - 1,
{
}

/// Invariant over all reachable states: from any well-formed state —
/// the boot state in particular — any sequence of presses and render
/// executions keeps the remaining time between zero and the maximum.
pub proof fn lemma_reachable_wf(s: CountdownState, events: Seq<Event>)
    requires
        s.wf(),
    ensures
        run_spec(s, events).wf(),
    decreases events.len(),
{
    if events.len() > 0 {
        lemma_step_wf(s, events[0]);
        lemma_reachable_wf(step_spec(s, events[0]), events.drop_first());
    }
}

/// The state after `n` consecutive reset presses.
pub open spec fn reset_n_spec(s: CountdownState, n: nat) -> CountdownState
    decreases n,
{
    if n == 0 {
        s
    } else {
        reset_spec(reset_n_spec(s, (n - 1) as nat))
    }
}

/// Repeated reset presses cycle the configured time: after `n` presses
/// the time is the original plus `n` steps, modulo the maximum, and the
/// countdown is stopped. From the boot maximum this walks 5, 10, ...,
/// 45, 0, 5, ... in steps of `TIME_STEP`.
pub proof fn lemma_reset_cycle(s: CountdownState, n: nat)
    requires
        s.wf(),
        n >= 1,
    ensures
        reset_n_spec(s, n).time_left == (s.time_left + TIME_STEP * n) % (MAX_TIME as int),
        !reset_n_spec(s, n).running,
        reset_n_spec(s, n).wf(),
    decreases n,
{
    if n == 1 {
        assert(reset_n_spec(s, 0) == s);
    } else {
        lemma_reset_cycle(s, (n - 1) as nat);
        lemma_add_mod_noop(s.time_left + TIME_STEP * (n - 1), TIME_STEP as int, MAX_TIME as int);
    }
}

/// The state after `n` consecutive render executions.
pub open spec fn tick_n_spec(s: CountdownState, n: nat) -> CountdownState
    decreases n,
{
    if n == 0 {
        s
    } else {
        tick_spec(tick_n_spec(s, (n - 1) as nat)).0
    }
}

/// While the countdown is running and has at least `n` units left, `n`
/// render executions elapse exactly `n` units and keep it running.
pub proof fn lemma_ticks_elapse(s: CountdownState, n: nat)
    requires
        s.wf(),
        s.running,
        n <= s.time_left,
    ensures
        tick_n_spec(s, n).running,
        tick_n_spec(s, n).time_left == s.time_left - n,
        tick_n_spec(s, n).wf(),
    decreases n,
{
    if n > 0 {
        lemma_ticks_elapse(s, (n - 1) as nat);
    }
}

/// Liveness: from the boot state, a start press followed by repeated
/// render executions drives the system through the running state and the
/// alarm state and back to stopped with no time left. The execution
/// after the last elapsed unit finds the count at zero and performs the
/// expiry transition.
pub proof fn lemma_liveness()
    ensures
        ({
            let boot = CountdownState { running: false, time_left: MAX_TIME };
            let started = start_spec(boot);
            &&& started.running && started.time_left == MAX_TIME
            &&& tick_n_spec(started, 1).is_running()
            &&& tick_n_spec(started, 49).is_alarm()
            &&& tick_n_spec(started, 50).is_alarm()
            &&& tick_n_spec(started, 50).time_left == 0
            &&& tick_n_spec(started, 51) == (CountdownState { running: false, time_left: 0 })
        }),
{
    let boot = CountdownState { running: false, time_left: MAX_TIME };
    let started = start_spec(boot);
    lemma_ticks_elapse(started, 1);
    lemma_ticks_elapse(started, 49);
    lemma_ticks_elapse(started, 50);
    assert(tick_n_spec(started, 51) == tick_spec(tick_n_spec(started, 50)).0);
}

/// A start press that preempts the render task between its snapshot and
/// its transition step. Lock-protected accesses are atomic, so the
/// remaining time is never observed half-updated, and the transition
/// step acts on the state as the press left it — the fresh `running`
/// flag, never the earlier snapshot — so the outcome is exactly the
/// press composed with the transition, and the invariant holds.
pub proof fn lemma_start_during_render(snap: CountdownState)
    requires
        snap.wf(),
    ensures
        start_spec(snap).running,
        start_spec(snap).time_left == snap.time_left,
        tick_spec(start_spec(snap)).0.wf(),
        snap.time_left > 0 ==> tick_spec(start_spec(snap)).0 ==
            (CountdownState { running: true, time_left: (snap.time_left - 1) as i32 })
            && tick_spec(start_spec(snap)).1,
        snap.time_left <= 0 ==> tick_spec(start_spec(snap)).0 ==
            (CountdownState { running: false, time_left: snap.time_left }),
{
}

} // verus!
