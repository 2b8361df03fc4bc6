//! The rows of the job table that the runner reads and writes.
use vstd::prelude::*;

use crate::queue::failed_status;
use crate::status::{status_text, JobStatus};

verus! {

/// A job as loaded from the queue to be run.
#[derive(Debug)]
pub struct BackgroundJob {
    pub id: String,
    pub job_type: String,
    pub data: serde_json::Value,
    pub retries: i32,
}

/// A job as inserted into the queue.
#[derive(Debug)]
pub struct NewBackgroundJob {
    pub id: String,
    pub job_type: String,
    pub data: serde_json::Value,
    pub status: String,
}

/// The characters of job ids: the base-58 alphabet (digits without `0`,
/// letters without `l`, `I` and `O`).
pub open spec fn is_id_char(c: char) -> bool {
    ||| '1' <= c <= '9'
    ||| 'a' <= c <= 'k'
    ||| 'm' <= c <= 'z'
    ||| 'A' <= c <= 'H'
    ||| 'J' <= c <= 'N'
    ||| 'P' <= c <= 'Z'
}

/// A well-formed job id: 15 to 24 characters of the base-58 alphabet.
pub open spec fn is_job_id(s: Seq<char>) -> bool {
    &&& 15 <= s.len() <= 24
    &&& forall|i: int| 0 <= i < s.len() ==> is_id_char(#[trigger] s[i])
}

/// Calls `min_id::generate_id`, which draws a length from 15 to 24 and that
/// many characters from the base-58 alphabet at random. What holds of every
/// outcome is stated; which id comes out is left open.
#[verifier::external_body]
fn generate_id() -> (id: String)
    ensures
        is_job_id(id@),
{
    min_id::generate_id()
}

impl NewBackgroundJob {
    /// A row for a new job of type `job_type` with arguments `data`, waiting
    /// to be run under a fresh random id.
    pub fn queued(job_type: &str, data: serde_json::Value) -> (job: Self)
        ensures
            is_job_id(job.id@),
            job.job_type@ == job_type@,
            job.data == data,
            job.status@ == status_text(JobStatus::Queued),
    {
        NewBackgroundJob {
            id: generate_id(),
            job_type: job_type.to_owned(),
            data,
            status: JobStatus::Queued.to_string(),
        }
    }
}

/// The status a job gets when an attempt fails, after it had failed
/// `job_retries` times, with at most `max_retries` failures allowed.
pub fn failed_job_status(job_retries: i32, max_retries: i32) -> (s: JobStatus)
    ensures
        s == failed_status(job_retries as int, max_retries as int),
        s == (if job_retries >= max_retries {
            JobStatus::Failed
        } else {
            JobStatus::FailedReQueued
        }),
{
    if job_retries >= max_retries {
        JobStatus::Failed
    } else {
        JobStatus::FailedReQueued
    }
}

} // verus!
