//! How a runner is configured: how many jobs run at once, how long one may
//! take, and how often a failing job is tried.
use vstd::prelude::*;

use std::time::Duration;

verus! {

/// Jobs run at once when nothing else is configured.
pub const DEFAULT_CONCURRENCY: usize = 5;

/// Seconds a job may take when nothing else is configured.
pub const DEFAULT_JOB_TIMEOUT_SECS: u64 = 300;

/// Failed attempts after which a job is no longer tried, when nothing else
/// is configured: in effect, jobs are tried until they succeed.
pub const DEFAULT_MAX_RETRIES: i32 = 2147483647;

/// The duration of `secs` whole seconds, as `Duration::from_secs` makes it.
pub uninterp spec fn duration_from_secs(secs: u64) -> Duration;

/// Calls std's `Duration::from_secs`, which makes the duration of `secs`
/// whole seconds; it depends on `secs` alone.
#[verifier::external_body]
fn duration_secs(secs: u64) -> (d: Duration)
    ensures
        d == duration_from_secs(secs),
{
    Duration::from_secs(secs)
}

/// The settings of a runner; unset ones take their defaults.
#[derive(Debug, Clone, Copy)]
pub struct RunnerSettings {
    pub concurrency: Option<usize>,
    pub job_timeout: Option<Duration>,
    pub max_retries: Option<i32>,
}

impl RunnerSettings {
    /// Nothing set.
    pub fn new() -> (s: Self)
        ensures
            s.concurrency is None,
            s.job_timeout is None,
            s.max_retries is None,
    {
        RunnerSettings { concurrency: None, job_timeout: None, max_retries: None }
    }

    /// Sets the number of jobs run at once.
    pub fn concurrency(self, concurrency: usize) -> (s: Self)
        ensures
            s == (RunnerSettings { concurrency: Some(concurrency), ..self }),
    {
        RunnerSettings { concurrency: Some(concurrency), ..self }
    }

    /// Sets how long a job may take before it is given up as timed out.
    pub fn job_timeout(self, timeout: Duration) -> (s: Self)
        ensures
            s == (RunnerSettings { job_timeout: Some(timeout), ..self }),
    {
        RunnerSettings { job_timeout: Some(timeout), ..self }
    }

    /// Sets after how many failed attempts a job is no longer tried.
    pub fn max_retries(self, max_retries: i32) -> (s: Self)
        ensures
            s == (RunnerSettings { max_retries: Some(max_retries), ..self }),
    {
        RunnerSettings { max_retries: Some(max_retries), ..self }
    }

    /// The number of jobs run at once: 5 unless set.
    pub fn effective_concurrency(&self) -> (n: usize)
        ensures
            n == match self.concurrency {
                Some(c) => c,
                None => DEFAULT_CONCURRENCY,
            },
    {
        match self.concurrency {
            Some(c) => c,
            None => DEFAULT_CONCURRENCY,
        }
    }

    /// How long a job may take: 300 seconds unless set.
    pub fn effective_job_timeout(&self) -> (d: Duration)
        ensures
            d == match self.job_timeout {
                Some(t) => t,
                None => duration_from_secs(DEFAULT_JOB_TIMEOUT_SECS),
            },
    {
        match self.job_timeout {
            Some(t) => t,
            None => duration_secs(DEFAULT_JOB_TIMEOUT_SECS),
        }
    }

    /// After how many failed attempts a job is no longer tried: `i32::MAX`
    /// unless set.
    pub fn effective_max_retries(&self) -> (n: i32)
        ensures
            n == match self.max_retries {
                Some(m) => m,
                None => DEFAULT_MAX_RETRIES,
            },
    {
        match self.max_retries {
            Some(m) => m,
            None => DEFAULT_MAX_RETRIES,
        }
    }
}

} // verus!
