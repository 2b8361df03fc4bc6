use swirl::queue::{next_runnable, JobRecord};
use swirl::JobStatus;

fn record(id: &str, created_at: i64) -> JobRecord {
    JobRecord::enqueued(id.to_string(), "job".to_string(), created_at)
}

#[test]
fn new_job_runs_at_once() {
    let r = record("a", 10);
    assert_eq!(r.status, JobStatus::Queued);
    assert_eq!(r.retries, 0);
    assert!(r.is_runnable(10, 3));
    assert!(r.is_runnable(-5, 3));
    assert!(!r.is_runnable(10, 0));
}

#[test]
fn failed_job_waits_one_minute() {
    let mut r = record("a", 0);
    r.mark_failed(1000, 5);
    assert_eq!(r.status, JobStatus::FailedReQueued);
    assert_eq!(r.retries, 1);
    assert_eq!(r.last_retry_at, Some(1000));
    // one minute, strictly after
    assert!(!r.is_runnable(1000 + 60, 5));
    assert!(r.is_runnable(1000 + 61, 5));
    assert!(r.is_runnable(1000 + 90, 5));
    r.mark_failed(2000, 5);
    assert_eq!(r.retries, 2);
    // still one minute after the second failure
    assert!(!r.is_runnable(2000 + 60, 5));
    assert!(r.is_runnable(2000 + 61, 5));
}

#[test]
fn job_out_of_retries_is_not_run() {
    let mut r = record("a", 0);
    r.mark_failed(0, 1);
    assert_eq!(r.status, JobStatus::FailedReQueued);
    assert!(!r.is_runnable(1_000_000, 1));
    let mut r2 = record("b", 0);
    r2.retries = 3;
    r2.mark_failed(0, 3);
    assert_eq!(r2.status, JobStatus::Failed);
    assert_eq!(r2.retries, 4);
    assert!(!r2.is_runnable(1_000_000, 10));
}

#[test]
fn succeeded_job_is_not_run_again() {
    let mut r = record("a", 0);
    r.mark_succeeded();
    assert_eq!(r.status, JobStatus::Succeeded);
    assert!(!r.is_runnable(i64::MAX, i32::MAX));
}

#[test]
fn back_off_at_the_ends_of_time_does_not_overflow() {
    let mut r = record("a", 0);
    r.retries = 70;
    r.status = JobStatus::FailedReQueued;
    r.last_retry_at = Some(i64::MAX);
    assert!(!r.is_runnable(i64::MAX, i32::MAX));
    r.last_retry_at = Some(i64::MIN);
    assert!(r.is_runnable(i64::MIN + 61, i32::MAX));
    assert!(!r.is_runnable(i64::MIN + 60, i32::MAX));
}

#[test]
fn oldest_runnable_job_comes_first() {
    let mut jobs = vec![record("a", 30), record("b", 10), record("c", 20)];
    assert_eq!(next_runnable(&jobs, 100, 5), Some(1));
    jobs[1].mark_succeeded();
    assert_eq!(next_runnable(&jobs, 100, 5), Some(2));
    jobs[2].mark_failed(90, 5);
    assert_eq!(next_runnable(&jobs, 100, 5), Some(0));
    jobs[0].mark_failed(95, 5);
    assert_eq!(next_runnable(&jobs, 100, 5), None);
    assert_eq!(next_runnable(&jobs, 90 + 61, 5), Some(2));
    assert_eq!(next_runnable(&Vec::new(), 0, 5), None);
}
