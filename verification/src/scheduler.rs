//! The decisions of the runner's main loop: how many jobs run at once, when a
//! further job is started, and when the runner shuts down.
//!
//! The loop itself (spawning tasks, waiting for them) lives with the caller,
//! which asks [`Scheduler::next_action`] what to do, performs it, and reports
//! back through [`Scheduler::task_started`] and [`Scheduler::task_finished`].
use vstd::prelude::*;

use crate::attempt::{stops_runner, PerformOutcome};
use crate::event::Event;

verus! {

/// How a task that ran one job attempt ended.
pub enum TaskOutcome {
    /// The task could not be run to its end.
    JoinFailed(tokio::task::JoinError),
    /// The attempt took longer than the job timeout.
    TimedOut,
    /// The attempt finished: `Ok` when the runner may go on (the job itself
    /// may still have failed and been re-queued), `Err` when it must stop.
    Finished(Result<(), Event>),
}

/// What the runner loop should do next.
#[derive(Debug, Clone, Copy, PartialEq, Eq, Structural)]
pub enum SchedulerAction {
    /// Stop, and report the recorded error.
    Shutdown,
    /// Start one more job attempt.
    Spawn,
    /// Wait until a running attempt finishes.
    AwaitCompletion,
}

/// The state of the runner loop.
pub struct Scheduler {
    running: usize,
    max_running: usize,
    error: Option<Event>,
}

/// What the loop should do with `running` attempts in flight, at most
/// `max_running` allowed, and an error recorded or not.
pub open spec fn action_for(running: nat, max_running: nat, failed: bool) -> SchedulerAction {
    if failed && running == 0 {
        SchedulerAction::Shutdown
    } else if !failed && running < max_running {
        SchedulerAction::Spawn
    } else {
        SchedulerAction::AwaitCompletion
    }
}

/// The error recorded after an attempt ended with `outcome`, when `error` was
/// recorded before. A later error replaces an earlier one.
pub open spec fn error_after(error: Option<Event>, outcome: TaskOutcome) -> Option<Event> {
    match outcome {
        TaskOutcome::JoinFailed(j) => Some(Event::TaskExecutionFailed(j)),
        TaskOutcome::Finished(Err(e)) => Some(e),
        _ => error,
    }
}

/// Whether an attempt that ended with `outcome` is replaced by a new one:
/// only when it ended without stopping the runner, and no error is recorded.
pub open spec fn replaces_finished(failed_before: bool, outcome: TaskOutcome) -> bool {
    !failed_before && match outcome {
        TaskOutcome::TimedOut => true,
        TaskOutcome::Finished(Ok(_)) => true,
        _ => false,
    }
}

impl Scheduler {
    /// Number of attempts in flight.
    pub closed spec fn running_spec(&self) -> nat {
        self.running as nat
    }

    /// Most attempts allowed at once.
    pub closed spec fn max_running_spec(&self) -> nat {
        self.max_running as nat
    }

    /// The error recorded so far, if any.
    pub closed spec fn error_spec(&self) -> Option<Event> {
        self.error
    }

    /// The state is consistent: never more attempts in flight than allowed.
    pub open spec fn wf(&self) -> bool {
        self.running_spec() <= self.max_running_spec()
    }

    /// A loop that allows `max_running` attempts at once, with none running
    /// and no error.
    pub fn new(max_running: usize) -> (s: Self)
        ensures
            s.wf(),
            s.running_spec() == 0,
            s.max_running_spec() == max_running,
            s.error_spec() is None,
    {
        Scheduler { running: 0, max_running, error: None }
    }

    /// Number of attempts in flight.
    pub fn running(&self) -> (n: usize)
        ensures
            n == self.running_spec(),
    {
        self.running
    }

    /// Whether an error has been recorded.
    pub fn has_failed(&self) -> (b: bool)
        ensures
            b == self.error_spec() is Some,
    {
        self.error.is_some()
    }

    /// What to do next: shut down once an error is recorded and nothing runs;
    /// start another attempt while no error is recorded and fewer than the
    /// allowed number run; otherwise wait for a running attempt.
    pub fn next_action(&self) -> (a: SchedulerAction)
        ensures
            a == action_for(
                self.running_spec(),
                self.max_running_spec(),
                self.error_spec() is Some,
            ),
    {
        if self.error.is_some() && self.running == 0 {
            SchedulerAction::Shutdown
        } else if self.error.is_none() && self.running < self.max_running {
            SchedulerAction::Spawn
        } else {
            SchedulerAction::AwaitCompletion
        }
    }

    /// Records that an attempt was started, as `next_action` asked.
    pub fn task_started(&mut self)
        requires
            old(self).wf(),
            action_for(
                old(self).running_spec(),
                old(self).max_running_spec(),
                old(self).error_spec() is Some,
            ) == SchedulerAction::Spawn,
        ensures
            final(self).wf(),
            final(self).running_spec() == old(self).running_spec() + 1,
            final(self).max_running_spec() == old(self).max_running_spec(),
            final(self).error_spec() == old(self).error_spec(),
    {
        self.running = self.running + 1;
    }

    /// Records that a running attempt ended with `outcome`. Returns whether
    /// the caller starts a replacement attempt at once; it is already counted
    /// as running.
    pub fn task_finished(&mut self, outcome: TaskOutcome) -> (respawn: bool)
        requires
            old(self).wf(),
            old(self).running_spec() > 0,
        ensures
            final(self).wf(),
            respawn == replaces_finished(old(self).error_spec() is Some, outcome),
            final(self).running_spec() == old(self).running_spec() - 1 + (if respawn {
                1int
            } else {
                0int
            }),
            final(self).max_running_spec() == old(self).max_running_spec(),
            final(self).error_spec() == error_after(old(self).error_spec(), outcome),
            match outcome {
                TaskOutcome::JoinFailed(j) => final(self).error_spec() == Some(Event::TaskExecutionFailed(j)),
                TaskOutcome::Finished(Err(e)) => final(self).error_spec() == Some(e),
                _ => final(self).error_spec() == old(self).error_spec(),
            },
    {
        let failed_before = self.error.is_some();
        self.running = self.running - 1;
        let respawn = match outcome {
            TaskOutcome::JoinFailed(j) => {
                self.error = Some(Event::TaskExecutionFailed(j));
                false
            },
            TaskOutcome::TimedOut => !failed_before,
            TaskOutcome::Finished(Ok(())) => !failed_before,
            TaskOutcome::Finished(Err(e)) => {
                self.error = Some(e);
                false
            },
        };
        if respawn {
            self.running = self.running + 1;
        }
        respawn
    }

    /// Ends the loop, handing out the recorded error.
    pub fn into_error(self) -> (e: Option<Event>)
        ensures
            e == self.error_spec(),
    {
        self.error
    }
}

/// No attempt is started while an error is recorded, and a recorded error is
/// never cleared, whatever the running attempts end with.
pub proof fn law_no_new_jobs_after_error(running: nat, max_running: nat, e: Event, outcome: TaskOutcome)
    ensures
        action_for(running, max_running, true) != SchedulerAction::Spawn,
        !replaces_finished(true, outcome),
        error_after(Some(e), outcome) is Some,
{
}

/// The loop shuts down exactly when an error is recorded and no attempt is
/// running any more.
pub proof fn law_shutdown_only_when_failed_and_idle(running: nat, max_running: nat, failed: bool)
    ensures
        action_for(running, max_running, failed) == SchedulerAction::Shutdown <==> (failed && running
            == 0),
{
}

/// A further attempt is started exactly when no error is recorded and fewer
/// attempts than allowed are running; so starting one, or replacing one that
/// ended, never takes the number of running attempts above the limit.
pub proof fn law_running_within_limit(
    running: nat,
    max_running: nat,
    failed: bool,
    error: Option<Event>,
    outcome: TaskOutcome,
)
    requires
        running <= max_running,
    ensures
        action_for(running, max_running, failed) == SchedulerAction::Spawn <==> (!failed && running
            < max_running),
        action_for(running, max_running, failed) == SchedulerAction::Spawn ==> running + 1
            <= max_running,
        running > 0 ==> running - 1 + (if replaces_finished(error is Some, outcome) {
            1int
        } else {
            0int
        }) <= max_running,
{
}

/// A job that returns an error does not stop the runner: the attempt is
/// replaced at once and no error is recorded. A job that panics records an
/// error, after which no further attempt starts. Here `result` is what the
/// attempt reports for `outcome` (see `resolve_attempt`).
pub proof fn law_job_errors_do_not_stop_runner(
    error: Option<Event>,
    outcome: PerformOutcome,
    result: Result<(), Event>,
)
    requires
        result is Err <==> stops_runner(outcome),
    ensures
        error_after(error, TaskOutcome::Finished(result)) is Some <==> (error is Some
            || outcome is Panicked),
        replaces_finished(error is Some, TaskOutcome::Finished(result)) <==> (error is None
            && !(outcome is Panicked)),
{
}

/// The error the runner stops with is the one the attempt reported, as it
/// was reported; a task that could not be run is reported as such; timeouts
/// and attempts that went on leave the recorded error as it was.
pub proof fn law_recorded_error_is_the_reported_one(
    error: Option<Event>,
    e: Event,
    j: tokio::task::JoinError,
)
    ensures
        error_after(error, TaskOutcome::Finished(Err(e))) == Some(e),
        error_after(error, TaskOutcome::JoinFailed(j)) == Some(Event::TaskExecutionFailed(j)),
        error_after(error, TaskOutcome::TimedOut) == error,
        error_after(error, TaskOutcome::Finished(Ok(()))) == error,
{
}

/// An attempt that ended is replaced exactly when it timed out or finished
/// without stopping the runner, and no error had been recorded.
pub proof fn law_replacement(failed_before: bool, outcome: TaskOutcome)
    ensures
        replaces_finished(failed_before, outcome) <==> (!failed_before && (outcome is TimedOut
            || outcome matches TaskOutcome::Finished(Ok(_)))),
{
}

} // verus!
