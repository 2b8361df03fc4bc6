//! The rules by which the queue hands out jobs: which rows are ready to run,
//! which of them comes first, and how a row changes when an attempt succeeds
//! or fails. A failed job is retried one minute after its last failure
//! (`1^n` minutes after its `n`-th failure).
use vstd::prelude::*;


use crate::status::JobStatus;

verus! {

/// One row of the job table, as far as the queue's rules read it. Times are
/// seconds since the Unix epoch.
#[derive(Debug, Clone)]
pub struct JobRecord {
    pub id: String,
    pub job_type: String,
    pub status: JobStatus,
    /// Number of failed attempts so far.
    pub retries: i32,
    /// When the last failed attempt ended, if there was one.
    pub last_retry_at: Option<i64>,
    pub created_at: i64,
}

/// Seconds a job waits after its last failure before it is tried again.
pub const RETRY_DELAY_SECS: i64 = 60;

/// Seconds a job waits after its last failure, once it has failed `retries`
/// times: `1^retries` minutes, that is one minute whatever the count.
pub open spec fn retry_delay_secs(retries: int) -> int {
    RETRY_DELAY_SECS as int
}

/// The statuses of jobs that still wait to be run.
pub open spec fn awaits_run(s: JobStatus) -> bool {
    s == JobStatus::Queued || s == JobStatus::FailedReQueued
}

/// A row may be picked at time `now`: it waits to be run, has failed fewer than
/// `max_retries` times, and has never failed or failed longer ago than its
/// back-off delay.
pub open spec fn runnable(r: JobRecord, now: int, max_retries: int) -> bool {
    &&& awaits_run(r.status)
    &&& r.retries < max_retries
    &&& match r.last_retry_at {
        None => true,
        Some(t) => t < now - retry_delay_secs(r.retries as int),
    }
}

/// The status a job gets when an attempt fails after it had failed `retries`
/// times: it is given up once `retries` has reached `max_retries`, and is
/// queued again otherwise.
pub open spec fn failed_status(retries: int, max_retries: int) -> JobStatus {
    if retries >= max_retries {
        JobStatus::Failed
    } else {
        JobStatus::FailedReQueued
    }
}

/// The row after an attempt that failed at time `now`.
pub open spec fn after_failure(r: JobRecord, now: i64, max_retries: i32) -> JobRecord {
    JobRecord {
        status: failed_status(r.retries as int, max_retries as int),
        retries: (r.retries + 1) as i32,
        last_retry_at: Some(now),
        ..r
    }
}

/// The row after an attempt that succeeded.
pub open spec fn after_success(r: JobRecord) -> JobRecord {
    JobRecord { status: JobStatus::Succeeded, ..r }
}

impl JobRecord {
    /// Row invariant: the failure count is never negative.
    pub open spec fn wf(&self) -> bool {
        self.retries >= 0
    }

    /// A freshly enqueued row.
    pub fn enqueued(id: String, job_type: String, created_at: i64) -> (r: Self)
        ensures
            r.wf(),
            r.id == id,
            r.job_type == job_type,
            r.status == JobStatus::Queued,
            r.retries == 0,
            r.last_retry_at is None,
            r.created_at == created_at,
    {
        JobRecord { id, job_type, status: JobStatus::Queued, retries: 0, last_retry_at: None, created_at }
    }

    /// Whether this row may be picked at time `now`.
    pub fn is_runnable(&self, now: i64, max_retries: i32) -> (b: bool)
        requires
            self.wf(),
        ensures
            b == runnable(*self, now as int, max_retries as int),
    {
        let waiting = match self.status {
            JobStatus::Queued => true,
            JobStatus::FailedReQueued => true,
            _ => false,
        };
        if !waiting || self.retries >= max_retries {
            return false;
        }
        match self.last_retry_at {
            None => true,
            Some(t) => (t as i128) < (now as i128) - (RETRY_DELAY_SECS as i128),
        }
    }

    /// Records an attempt that failed at time `now`.
    pub fn mark_failed(&mut self, now: i64, max_retries: i32)
        requires
            old(self).wf(),
            old(self).retries < i32::MAX,
        ensures
            final(self).wf(),
            *final(self) == after_failure(*old(self), now, max_retries),
            final(self).status == (if old(self).retries >= max_retries {
                JobStatus::Failed
            } else {
                JobStatus::FailedReQueued
            }),
            final(self).retries == old(self).retries + 1,
            final(self).last_retry_at == Some(now),
    {
        self.status = if self.retries >= max_retries {
            JobStatus::Failed
        } else {
            JobStatus::FailedReQueued
        };
        self.retries = self.retries + 1;
        self.last_retry_at = Some(now);
    }

    /// Records an attempt that succeeded.
    pub fn mark_succeeded(&mut self)
        requires
            old(self).wf(),
        ensures
            final(self).wf(),
            *final(self) == after_success(*old(self)),
            final(self).status == JobStatus::Succeeded,
            final(self).retries == old(self).retries,
            final(self).last_retry_at == old(self).last_retry_at,
    {
        self.status = JobStatus::Succeeded;
    }
}

/// The row the queue hands out next at time `now`: the runnable row created
/// first (the earliest in `jobs` among rows created at the same time), or none
/// when no row is runnable.
pub fn next_runnable(jobs: &Vec<JobRecord>, now: i64, max_retries: i32) -> (pick: Option<usize>)
    requires
        forall|k: int| 0 <= k < jobs.len() ==> (#[trigger] jobs[k]).wf(),
    ensures
        match pick {
            Some(i) => {
                &&& i < jobs.len()
                &&& runnable(jobs[i as int], now as int, max_retries as int)
                &&& forall|k: int|
                    0 <= k < jobs.len() && runnable(#[trigger] jobs[k], now as int, max_retries as int)
                        ==> jobs[i as int].created_at <= jobs[k].created_at
                &&& forall|k: int|
                    0 <= k < i && runnable(#[trigger] jobs[k], now as int, max_retries as int)
                        ==> jobs[i as int].created_at < jobs[k].created_at
            },
            None => forall|k: int|
                0 <= k < jobs.len() ==> !runnable(#[trigger] jobs[k], now as int, max_retries as int),
        },
{
    let mut best: Option<usize> = None;
    let mut i: usize = 0;
    while i < jobs.len()
        invariant
            i <= jobs.len(),
            forall|k: int| 0 <= k < jobs.len() ==> (#[trigger] jobs[k]).wf(),
            match best {
                Some(b) => {
                    &&& b < i
                    &&& runnable(jobs[b as int], now as int, max_retries as int)
                    &&& forall|k: int|
                        0 <= k < i && runnable(#[trigger] jobs[k], now as int, max_retries as int)
                            ==> jobs[b as int].created_at <= jobs[k].created_at
                    &&& forall|k: int|
                        0 <= k < b && runnable(#[trigger] jobs[k], now as int, max_retries as int)
                            ==> jobs[b as int].created_at < jobs[k].created_at
                },
                None => forall|k: int|
                    0 <= k < i ==> !runnable(#[trigger] jobs[k], now as int, max_retries as int),
            },
        decreases jobs.len() - i,
    {
        if jobs[i].is_runnable(now, max_retries) {
            match best {
                None => {
                    best = Some(i);
                },
                Some(b) => {
                    if jobs[i].created_at < jobs[b].created_at {
                        best = Some(i);
                    }
                },
            }
        }
        i = i + 1;
    }
    best
}

/// A job whose attempt failed at `failed_at` is handed out again exactly when
/// it has failed fewer than `max_retries` times in all and more than one
/// minute (`1^n` minutes, `n` being its failure count) has passed since that
/// failure.
pub proof fn law_failed_job_waits_back_off(r: JobRecord, failed_at: i64, now: i64, max_retries: i32)
    requires
        r.wf(),
        r.retries < i32::MAX,
    ensures
        runnable(after_failure(r, failed_at, max_retries), now as int, max_retries as int) <==> (
        r.retries + 1 < max_retries && failed_at + 60 < now),
{
}

/// The wait after a failure is one minute, whatever the number of failures.
pub proof fn law_back_off_is_one_minute(n: int)
    ensures
        retry_delay_secs(n) == 60,
{
}

/// A job whose attempt succeeded is never handed out again.
pub proof fn law_succeeded_job_never_runs(r: JobRecord, now: int, max_retries: int)
    ensures
        !runnable(after_success(r), now, max_retries),
{
}

/// A job that has failed `max_retries` times or more is never handed out again.
pub proof fn law_exhausted_job_never_runs(r: JobRecord, now: int, max_retries: int)
    requires
        r.retries >= max_retries,
    ensures
        !runnable(r, now, max_retries),
{
}

/// A freshly enqueued job can be handed out at once, provided any attempts
/// are allowed at all.
pub proof fn law_enqueued_job_runs_at_once(r: JobRecord, now: int, max_retries: int)
    requires
        r.status == JobStatus::Queued,
        r.retries == 0,
        r.last_retry_at is None,
    ensures
        runnable(r, now, max_retries) <==> max_retries > 0,
{
}

/// A success marks the row `Succeeded`, whatever it went through before, and
/// changes nothing else.
pub proof fn law_success_marks_succeeded(r: JobRecord)
    ensures
        after_success(r).status == JobStatus::Succeeded,
        after_success(r).id == r.id,
        after_success(r).job_type == r.job_type,
        after_success(r).retries == r.retries,
        after_success(r).last_retry_at == r.last_retry_at,
        after_success(r).created_at == r.created_at,
{
}

/// A failure counts one more failed attempt, records when it happened, and
/// gives the job up (`Failed`) when it had already failed `max_retries`
/// times or more; otherwise the job waits to be tried again
/// (`FailedReQueued`). Nothing else changes.
pub proof fn law_failure_record(r: JobRecord, now: i64, max_retries: i32)
    requires
        r.retries < i32::MAX,
    ensures
        after_failure(r, now, max_retries).status == (if r.retries >= max_retries {
            JobStatus::Failed
        } else {
            JobStatus::FailedReQueued
        }),
        after_failure(r, now, max_retries).retries == r.retries + 1,
        after_failure(r, now, max_retries).last_retry_at == Some(now),
        after_failure(r, now, max_retries).id == r.id,
        after_failure(r, now, max_retries).job_type == r.job_type,
        after_failure(r, now, max_retries).created_at == r.created_at,
{
}

/// A row is handed out exactly when it is `Queued` or `FailedReQueued`, has
/// failed fewer than `max_retries` times, and either never failed or failed
/// more than sixty seconds before `now`.
pub proof fn law_runnable_rows(r: JobRecord, now: int, max_retries: int)
    ensures
        runnable(r, now, max_retries) <==> ((r.status == JobStatus::Queued || r.status
            == JobStatus::FailedReQueued) && r.retries < max_retries && (r.last_retry_at is None
            || r.last_retry_at->0 + 60 < now)),
{
}

} // verus!
