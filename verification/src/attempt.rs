//! The decisions of one job attempt: what to do with the job the queue
//! handed out, with a job type nobody registered, and with what running the
//! job gave back.
use vstd::prelude::*;

use diesel::OptionalExtension;

use crate::errors::PerformError;
use crate::event::Event;
use crate::storage::BackgroundJob;

verus! {

/// What to do after asking the queue for the next job.
#[derive(Debug)]
pub enum FetchStep {
    /// Run this job.
    Run(BackgroundJob),
    /// No job is ready: pause, then end the attempt without error.
    Idle,
    /// Stop the runner with this error.
    Fail(Event),
}

/// How running a job ended.
pub enum PerformOutcome {
    /// The job panicked; the text of the panic payload, when it had one.
    Panicked(Option<String>),
    /// The job returned.
    Returned(Result<(), PerformError>),
    /// The job did not finish within the job timeout.
    TimedOut,
}

/// How the job's row is updated after an attempt.
#[derive(Debug, Clone, Copy, PartialEq, Eq, Structural)]
pub enum JobUpdate {
    MarkSucceeded,
    MarkFailed,
}

/// Whether diesel's `OptionalExtension::optional` turns the query error `e`
/// into `Ok(None)`: by diesel's source, exactly when `e` is
/// `Error::NotFound`, the error of a query that found no row.
pub uninterp spec fn optional_finds_nothing(e: diesel::result::Error) -> bool;

/// Calls diesel's `OptionalExtension::optional`, which wraps a found row in
/// `Some`, turns the "not found" error into `Ok(None)`, and keeps every
/// other error.
#[verifier::external_body]
fn optional_row<T>(res: Result<T, diesel::result::Error>) -> (r: Result<Option<T>, diesel::result::Error>)
    ensures
        match res {
            Ok(row) => r == Ok::<Option<T>, diesel::result::Error>(Some(row)),
            Err(e) => if optional_finds_nothing(e) {
                r == Ok::<Option<T>, diesel::result::Error>(None)
            } else {
                r == Err::<Option<T>, diesel::result::Error>(e)
            },
        },
{
    res.optional()
}

/// The step after the queue answered with `found`: a job is run, no job
/// means an idle pause, and an error while loading stops the runner.
pub fn step_after_lookup(found: Result<Option<BackgroundJob>, diesel::result::Error>) -> (s: FetchStep)
    ensures
        match found {
            Ok(Some(job)) => s == FetchStep::Run(job),
            Ok(None) => s == FetchStep::Idle,
            Err(e) => s == FetchStep::Fail(Event::ErrorLoadingJob(e)),
        },
{
    match found {
        Ok(Some(job)) => FetchStep::Run(job),
        Ok(None) => FetchStep::Idle,
        Err(e) => FetchStep::Fail(Event::ErrorLoadingJob(e)),
    }
}

/// The step after the query for the next job answered `res`, where "not
/// found" means that no job is ready.
pub fn step_after_fetch(res: Result<BackgroundJob, diesel::result::Error>) -> (s: FetchStep)
    ensures
        match res {
            Ok(job) => s == FetchStep::Run(job),
            Err(e) => if optional_finds_nothing(e) {
                s == FetchStep::Idle
            } else {
                s == FetchStep::Fail(Event::ErrorLoadingJob(e))
            },
        },
{
    step_after_lookup(optional_row(res))
}

/// The error for a job whose type no registered job has.
pub open spec fn unrecognized_job_text(job_type: Seq<char>, job_id: Seq<char>) -> Seq<char> {
    "Unknown job type "@ + job_type + " for job "@ + job_id
}

/// Stops the runner on a job of a type that is not registered.
pub fn unrecognized_job(job_type: &String, job_id: &String) -> (ev: Event)
    ensures
        ev matches Event::UnrecognizedJob(msg) && msg@ == unrecognized_job_text(job_type@, job_id@),
{
    let mut msg = String::from_str("Unknown job type ");
    msg.append(job_type.as_str());
    msg.append(" for job ");
    msg.append(job_id.as_str());
    Event::UnrecognizedJob(msg)
}

/// The description of a panic with the given payload text.
pub open spec fn panic_text(payload: Option<String>) -> Seq<char> {
    match payload {
        Some(p) => "job panicked: "@ + p@,
        None => "job panicked"@,
    }
}

/// Describes a panic whose payload had the text `payload`, if any.
pub fn panic_message(payload: Option<String>) -> (msg: PerformError)
    ensures
        msg@ == panic_text(payload),
{
    match payload {
        Some(p) => {
            let mut msg = String::from_str("job panicked: ");
            msg.append(p.as_str());
            msg
        },
        None => String::from_str("job panicked"),
    }
}

/// Whether how a job ended stops the runner: only a panic does.
pub open spec fn stops_runner(outcome: PerformOutcome) -> bool {
    outcome is Panicked
}

/// What follows from how running a job ended: a job that returned `Ok` is
/// marked succeeded; one that returned an error or timed out is marked failed
/// and the runner goes on; one that panicked is marked failed and the runner
/// stops. The row's update is kept in every case: the attempt's result is
/// reported once it has been written.
pub fn resolve_attempt(outcome: PerformOutcome) -> (r: (JobUpdate, Result<(), Event>))
    ensures
        r.1 is Err <==> stops_runner(outcome),
        match outcome {
            PerformOutcome::Panicked(p) => {
                &&& r.0 == JobUpdate::MarkFailed
                &&& r.1 matches Err(Event::PanicOccurred(msg))
                &&& msg@ == panic_text(p)
            },
            PerformOutcome::Returned(Ok(())) => r == (JobUpdate::MarkSucceeded, Ok::<(), Event>(())),
            PerformOutcome::Returned(Err(_)) => r == (JobUpdate::MarkFailed, Ok::<(), Event>(())),
            PerformOutcome::TimedOut => r == (JobUpdate::MarkFailed, Ok::<(), Event>(())),
        },
{
    match outcome {
        PerformOutcome::Panicked(p) => (JobUpdate::MarkFailed, Err(Event::PanicOccurred(panic_message(p)))),
        PerformOutcome::Returned(Ok(())) => (JobUpdate::MarkSucceeded, Ok(())),
        PerformOutcome::Returned(Err(_)) => (JobUpdate::MarkFailed, Ok(())),
        PerformOutcome::TimedOut => (JobUpdate::MarkFailed, Ok(())),
    }
}

} // verus!
