use countdown_timer::CountdownState;
use countdown_timer::buttons::ServicedButton;
use countdown_timer::buttons::handle_buttons;
use countdown_timer::task::update_display;

#[test]
fn boot_state_is_stopped_at_maximum() {
    let s = CountdownState::new();
    assert!(!s.running);
    assert_eq!(s.time_left, 50);
}

#[test]
fn start_begins_countdown_and_keeps_time() {
    let mut s = CountdownState::new();
    s.press_start();
    assert!(s.running);
    assert_eq!(s.time_left, 50);
}

#[test]
fn reset_cycle_from_boot() {
    // Pressing reset while stopped cycles through 5, 10, ..., 45, 0, 5, ...
    let mut s = CountdownState::new();
    let expected: [i32; 12] = [5, 10, 15, 20, 25, 30, 35, 40, 45, 0, 5, 10];
    for e in expected {
        s.press_reset();
        assert!(!s.running);
        assert_eq!(s.time_left, e);
        assert!((0..=49).contains(&s.time_left));
    }
}

#[test]
fn reset_while_running_stops_and_advances() {
    // The press acts the same whatever the in-flight countdown value is.
    for t in [0, 1, 2, 30, 44, 45, 49, 50] {
        let mut s = CountdownState { running: true, time_left: t };
        s.press_reset();
        assert!(!s.running);
        assert_eq!(s.time_left, (t + 5) % 50);
    }
}

#[test]
fn tick_decrements_and_reschedules_while_running() {
    let mut s = CountdownState { running: true, time_left: 10 };
    let resched = s.tick();
    assert!(resched);
    assert!(s.running);
    assert_eq!(s.time_left, 9);
}

#[test]
fn tick_at_zero_expires_without_reschedule() {
    let mut s = CountdownState { running: true, time_left: 0 };
    let resched = s.tick();
    assert!(!resched);
    assert!(!s.running);
    assert_eq!(s.time_left, 0);
}

#[test]
fn tick_while_stopped_changes_nothing() {
    let mut s = CountdownState { running: false, time_left: 17 };
    let resched = s.tick();
    assert!(!resched);
    assert!(!s.running);
    assert_eq!(s.time_left, 17);
}

#[test]
fn countdown_runs_to_expiry() {
    // Start from boot, press start, then let the task run until it stops
    // rescheduling: the system passes through running and alarm and ends
    // stopped at zero.
    let mut s = CountdownState::new();
    s.press_start();
    let mut executions: u32 = 0;
    let mut saw_running: bool = false;
    let mut saw_alarm: bool = false;
    loop {
        if s.running && s.time_left > 1 {
            saw_running = true;
        }
        if s.running && s.time_left <= 1 {
            saw_alarm = true;
        }
        let (_frame, resched) = update_display(&mut s);
        executions += 1;
        if !resched && !s.running {
            break;
        }
        assert!(executions < 1000);
    }
    assert!(saw_running);
    assert!(saw_alarm);
    assert!(!s.running);
    assert_eq!(s.time_left, 0);
    assert_eq!(executions, 51);
}

#[test]
fn start_channel_is_serviced_first() {
    // Both events pending: only the start channel is serviced on this
    // invocation; the reset channel waits for its own interrupt.
    let mut s = CountdownState { running: false, time_left: 20 };
    let serviced = handle_buttons(&mut s, true, true);
    assert_eq!(serviced, ServicedButton::StartButton);
    assert!(s.running);
    assert_eq!(s.time_left, 20);
}

#[test]
fn reset_channel_serviced_when_start_idle() {
    let mut s = CountdownState { running: true, time_left: 20 };
    let serviced = handle_buttons(&mut s, false, true);
    assert_eq!(serviced, ServicedButton::ResetButton);
    assert!(!s.running);
    assert_eq!(s.time_left, 25);
}

#[test]
fn no_pending_event_is_a_no_op() {
    let mut s = CountdownState { running: true, time_left: 20 };
    let serviced = handle_buttons(&mut s, false, false);
    assert_eq!(serviced, ServicedButton::NoButton);
    assert!(s.running);
    assert_eq!(s.time_left, 20);
}

#[test]
fn start_during_render_is_honored_by_the_transition() {
    // A press between the task's snapshot and its transition step: the
    // transition sees the fresh state the press wrote.
    let mut s = CountdownState { running: false, time_left: 12 };
    let snapshot = s;
    assert!(!snapshot.running);
    s.press_start();
    let resched = s.tick();
    assert!(resched);
    assert!(s.running);
    assert_eq!(s.time_left, 11);
}
