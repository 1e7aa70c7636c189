use noleader::{Backoff, Status, BACKOFF_CAP, DEFAULT_INTERVAL_SECS};

#[test]
fn status_table() {
    assert_eq!(Status::of(false, true), Status::Leader);
    assert_eq!(Status::of(false, false), Status::Candidate);
    assert_eq!(Status::of(true, true), Status::Candidate);
    assert_eq!(Status::of(true, false), Status::Candidate);
}

#[test]
fn backoff_starts_at_one_interval() {
    let backoff = Backoff::new();
    assert_eq!(backoff.attempts(), 1);
    assert_eq!(backoff.wait_secs(), DEFAULT_INTERVAL_SECS);
    assert_eq!(backoff.wait_secs(), 10);
}

#[test]
fn backoff_grows_then_saturates() {
    let mut backoff = Backoff::new();
    for n in 1..=BACKOFF_CAP {
        assert!(!backoff.record(false));
        assert_eq!(backoff.attempts(), 1 + n);
    }
    assert_eq!(backoff.wait_secs(), 110);
    for _ in 0..5 {
        assert!(!backoff.record(false));
        assert_eq!(backoff.attempts(), 11);
    }
    assert_eq!(backoff.wait_secs(), 110);
}

#[test]
fn backoff_resets_on_success() {
    let mut backoff = Backoff::new();
    backoff.record(false);
    backoff.record(false);
    assert_eq!(backoff.attempts(), 3);
    assert!(backoff.record(true));
    assert_eq!(backoff.attempts(), 1);
    assert_eq!(backoff.wait_secs(), 10);
}

use noleader::{
    after_work, guard_step, work_step, GuardStep, WorkStep, GUARD_TICK_MILLIS,
    LEADERSHIP_POLL_MILLIS,
};

#[test]
fn work_runs_only_for_the_leader() {
    assert_eq!(work_step(Status::Leader, false), WorkStep::RunWork);
    assert_eq!(
        work_step(Status::Candidate, false),
        WorkStep::WaitForLeadership { millis: 1000 }
    );
    assert_eq!(LEADERSHIP_POLL_MILLIS, 1000);
    assert_eq!(work_step(Status::Leader, true), WorkStep::Stop);
    assert_eq!(work_step(Status::Candidate, true), WorkStep::Stop);
}

#[test]
fn shut_down_candidate_does_no_work() {
    let status = Status::of(true, true);
    assert_ne!(work_step(status, false), WorkStep::RunWork);
    assert_eq!(guard_step(status, false), GuardStep::CancelWork);
}

#[test]
fn guard_cancels_on_lost_leadership() {
    assert_eq!(guard_step(Status::Leader, false), GuardStep::Tick { millis: 500 });
    assert_eq!(GUARD_TICK_MILLIS, 500);
    assert_eq!(guard_step(Status::Candidate, false), GuardStep::CancelWork);
    assert_eq!(guard_step(Status::Leader, true), GuardStep::Exit);
    assert_eq!(guard_step(Status::Candidate, true), GuardStep::Exit);
}

#[test]
fn work_loop_ends_on_failed_work() {
    assert!(after_work(&Err("boom".to_string())));
    assert!(!after_work(&Ok(())));
}
