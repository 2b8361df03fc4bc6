//! What can stop the runner.
use vstd::prelude::*;

use crate::errors::PerformError;

verus! {

/// An error that stops the runner from starting further jobs.
#[derive(Debug)]
pub enum Event {
    /// A job panicked; the text describes the panic.
    PanicOccurred(PerformError),
    /// The next job could not be loaded from the queue.
    ErrorLoadingJob(diesel::result::Error),
    /// No database connection could be obtained.
    FailedToAcquireConnection(deadpool_diesel::PoolError),
    /// A task that runs a job could not be started or joined.
    TaskExecutionFailed(tokio::task::JoinError),
    /// The transaction around a job attempt failed.
    TxnInternal(diesel::result::Error),
    /// A job of a type that no registered job has.
    UnrecognizedJob(String),
}

/// The name under which the runner reports its errors.
pub type JobRunnerError = Event;

impl From<diesel::result::Error> for Event {
    fn from(err: diesel::result::Error) -> (ev: Self) {
        Event::TxnInternal(err)
    }
}

impl vstd::std_specs::convert::FromSpecImpl<diesel::result::Error> for Event {
    open spec fn obeys_from_spec() -> bool {
        true
    }

    open spec fn from_spec(v: diesel::result::Error) -> Self {
        Event::TxnInternal(v)
    }
}

} // verus!
