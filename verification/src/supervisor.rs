use vstd::prelude::*;

use crate::election::DEFAULT_INTERVAL_SECS;

verus! {

/// Whether this candidate currently holds leadership.
#[derive(Clone, Copy, Debug, PartialEq, Eq, Structural)]
pub enum Status {
    Leader,
    Candidate,
}

impl Status {
    /// The status that a candidate reports: never leader once it is shutting
    /// down, otherwise leader exactly when its last round confirmed it.
    pub fn of(shutting_down: bool, is_leader: bool) -> (res: Status)
        ensures
            res == status_from(shutting_down, is_leader),
    {
        if shutting_down {
            return Status::Candidate;
        }
        if is_leader {
            Status::Leader
        } else {
            Status::Candidate
        }
    }
}

/// How long the work loop waits, in milliseconds, before it looks again
/// whether this candidate has become the leader.
pub const LEADERSHIP_POLL_MILLIS: u64 = 1000;

/// How often, in milliseconds, the guard of running work looks whether this
/// candidate is still the leader.
pub const GUARD_TICK_MILLIS: u64 = 500;

/// What the leader-only work loop does next.
#[derive(Clone, Copy, Debug, PartialEq, Eq, Structural)]
pub enum WorkStep {
    /// Not the leader: wait, then look again.
    WaitForLeadership { millis: u64 },
    /// The leader: run the work, under a guard.
    RunWork,
    /// The loop was cancelled: stop.
    Stop,
}

/// What the guard of running work does next.
#[derive(Clone, Copy, Debug, PartialEq, Eq, Structural)]
pub enum GuardStep {
    /// Still the leader: look again after this many milliseconds.
    Tick { millis: u64 },
    /// Leadership is lost (or the candidate is shutting down): cancel the work.
    CancelWork,
    /// The work's token is cancelled: the guard is done.
    Exit,
}

/// The work loop's next step: stop once cancelled, run the work while this
/// candidate is the leader, and otherwise wait for leadership.
pub open spec fn next_work_step(status: Status, cancelled: bool) -> WorkStep {
    if cancelled {
        WorkStep::Stop
    } else if status == Status::Leader {
        WorkStep::RunWork
    } else {
        WorkStep::WaitForLeadership { millis: LEADERSHIP_POLL_MILLIS }
    }
}

/// The guard's next step: done once the work's token is cancelled, cancel the
/// work as soon as this candidate is no longer the leader, and otherwise look
/// again after a tick.
pub open spec fn next_guard_step(status: Status, cancelled: bool) -> GuardStep {
    if cancelled {
        GuardStep::Exit
    } else if status != Status::Leader {
        GuardStep::CancelWork
    } else {
        GuardStep::Tick { millis: GUARD_TICK_MILLIS }
    }
}

/// The status that `Status::of` reports.
pub open spec fn status_from(shutting_down: bool, is_leader: bool) -> Status {
    if !shutting_down && is_leader {
        Status::Leader
    } else {
        Status::Candidate
    }
}

/// The work loop's next step (see `next_work_step`).
pub fn work_step(status: Status, cancelled: bool) -> (res: WorkStep)
    ensures
        res == next_work_step(status, cancelled),
{
    if cancelled {
        WorkStep::Stop
    } else if status == Status::Leader {
        WorkStep::RunWork
    } else {
        WorkStep::WaitForLeadership { millis: LEADERSHIP_POLL_MILLIS }
    }
}

/// Whether the work loop ends after a run of the work: exactly when the work
/// failed, whose error the loop then returns.
pub fn after_work(outcome: &Result<(), String>) -> (stop: bool)
    ensures
        stop == outcome is Err,
{
    outcome.is_err()
}

/// The guard's next step (see `next_guard_step`).
pub fn guard_step(status: Status, cancelled: bool) -> (res: GuardStep)
    ensures
        res == next_guard_step(status, cancelled),
{
    if cancelled {
        GuardStep::Exit
    } else if status != Status::Leader {
        GuardStep::CancelWork
    } else {
        GuardStep::Tick { millis: GUARD_TICK_MILLIS }
    }
}

/// The work runs only under leadership: a candidate that is shutting down, or
/// that does not hold leadership, never starts the work, and the guard of work
/// already running cancels it unless its token is cancelled already.
pub proof fn lemma_work_only_while_leader(shutting_down: bool, is_leader: bool, cancelled: bool)
    requires
        shutting_down || !is_leader,
    ensures
        next_work_step(status_from(shutting_down, is_leader), cancelled) != WorkStep::RunWork,
        !cancelled ==> next_guard_step(status_from(shutting_down, is_leader), cancelled)
            == GuardStep::CancelWork,
{
}

/// The number of failed rounds in a row after which the wait stops growing.
pub const BACKOFF_CAP: u32 = 10;

/// The attempt count after a round: reset by a success, otherwise one more,
/// up to one past the cap.
pub open spec fn next_attempts(attempts: u32, round_ok: bool) -> u32 {
    if round_ok {
        1
    } else if attempts <= BACKOFF_CAP {
        (attempts + 1) as u32
    } else {
        attempts
    }
}

/// The attempt count after `failures` failed rounds in a row.
pub open spec fn attempts_after_failures(attempts: u32, failures: nat) -> u32
    decreases failures,
{
    if failures == 0 {
        attempts
    } else {
        next_attempts(attempts_after_failures(attempts, (failures - 1) as nat), false)
    }
}

/// The pacing of the election loop: the wait before the next round grows with
/// each failed round and is reset by a successful one.
pub struct Backoff {
    attempts: u32,
}

impl View for Backoff {
    type V = u32;

    closed spec fn view(&self) -> u32 {
        self.attempts
    }
}

impl Backoff {
    #[verifier::type_invariant]
    spec fn bounded(self) -> bool {
        1 <= self.attempts <= BACKOFF_CAP + 1
    }

    /// The first round waits one interval.
    pub fn new() -> (res: Self)
        ensures
            res@ == 1,
    {
        Backoff { attempts: 1 }
    }

    /// The attempt count, which stays between one and one past the cap.
    pub fn attempts(&self) -> (res: u32)
        ensures
            res == self@,
            1 <= res <= BACKOFF_CAP + 1,
    {
        proof {
            use_type_invariant(self);
        }
        self.attempts
    }

    /// The wait, in seconds, before the next round, before jitter: the
    /// interval times the attempt count.
    pub fn wait_secs(&self) -> (res: u64)
        ensures
            res == DEFAULT_INTERVAL_SECS * self@,
            DEFAULT_INTERVAL_SECS <= res <= DEFAULT_INTERVAL_SECS * (BACKOFF_CAP + 1),
    {
        proof {
            use_type_invariant(self);
        }
        DEFAULT_INTERVAL_SECS * (self.attempts as u64)
    }

    /// Records the outcome of a round, and returns whether the candidate is
    /// now the leader: exactly when the round succeeded.
    pub fn record(&mut self, round_ok: bool) -> (is_leader: bool)
        ensures
            is_leader == round_ok,
            final(self)@ == next_attempts(old(self)@, round_ok),
    {
        proof {
            use_type_invariant(&*self);
        }
        if round_ok {
            self.attempts = 1;
        } else if self.attempts <= BACKOFF_CAP {
            self.attempts = self.attempts + 1;
        }
        round_ok
    }
}

/// After any number of failed rounds in a row the attempt count is the
/// smaller of its start plus the failures and one past the cap: the wait
/// grows by one interval per failure and then stays.
pub proof fn lemma_backoff_saturates(attempts: u32, failures: nat)
    requires
        1 <= attempts <= BACKOFF_CAP + 1,
    ensures
        attempts_after_failures(attempts, failures) == (if attempts + failures <= BACKOFF_CAP
            + 1 {
            attempts + failures
        } else {
            BACKOFF_CAP + 1
        }),
    decreases failures,
{
    if failures > 0 {
        lemma_backoff_saturates(attempts, (failures - 1) as nat);
    }
}

/// Whatever a round's outcome, the attempt count stays between one and one
/// past the cap, so the wait before a round stays between one interval and
/// one past the cap of them.
pub proof fn lemma_attempts_stay_bounded(attempts: u32, round_ok: bool)
    requires
        1 <= attempts <= BACKOFF_CAP + 1,
    ensures
        1 <= next_attempts(attempts, round_ok) <= BACKOFF_CAP + 1,
        DEFAULT_INTERVAL_SECS <= DEFAULT_INTERVAL_SECS * next_attempts(attempts, round_ok)
            <= DEFAULT_INTERVAL_SECS * (BACKOFF_CAP + 1),
{
}

/// A successful round resets the wait to one interval, whatever came before.
pub proof fn lemma_success_resets(attempts: u32)
    ensures
        next_attempts(attempts, true) == 1,
{
}

} // verus!
