use countdown_timer::sched::FatalError;
use countdown_timer::sched::RenderSchedule;

#[test]
fn first_request_is_granted() {
    let mut sched = RenderSchedule::new();
    assert!(!sched.pending);
    assert_eq!(sched.request(), Ok(()));
    assert!(sched.pending);
}

#[test]
fn second_request_is_a_scheduling_conflict() {
    let mut sched = RenderSchedule::new();
    assert_eq!(sched.request(), Ok(()));
    assert_eq!(sched.request(), Err(FatalError::SchedulingConflict));
    assert!(sched.pending);
}

#[test]
fn taking_the_request_frees_the_slot() {
    let mut sched = RenderSchedule::new();
    assert!(!sched.take());
    assert_eq!(sched.request(), Ok(()));
    assert!(sched.take());
    assert!(!sched.pending);
    assert_eq!(sched.request(), Ok(()));
}

#[test]
fn coalescing_drops_the_redundant_request() {
    let mut sched = RenderSchedule::new();
    sched.request_coalescing();
    sched.request_coalescing();
    assert!(sched.pending);
    assert!(sched.take());
    assert!(!sched.take());
}
