use std::time::Duration;
use swirl::storage::failed_job_status;
use swirl::{JobStatus, NewBackgroundJob, RunnerSettings};

const ALPHABET: &str = "123456789abcdefghijkmnopqrstuvwxyzABCDEFGHJKLMNPQRSTUVWXYZ";

#[test]
fn queued_job_row() {
    let data = serde_json::Value::from(vec![1, 2, 3]);
    let job = NewBackgroundJob::queued("resize_image", data.clone());
    assert_eq!(job.job_type, "resize_image");
    assert_eq!(job.status, "Queued");
    assert_eq!(job.data, data);
    let n = job.id.chars().count();
    assert!(n >= 15 && n <= 24);
    assert!(job.id.chars().all(|c| ALPHABET.contains(c)));
    let other = NewBackgroundJob::queued("resize_image", serde_json::Value::Null);
    assert_ne!(job.id, other.id);
}

#[test]
fn status_after_failure() {
    assert_eq!(failed_job_status(0, 3), JobStatus::FailedReQueued);
    assert_eq!(failed_job_status(2, 3), JobStatus::FailedReQueued);
    assert_eq!(failed_job_status(3, 3), JobStatus::Failed);
    assert_eq!(failed_job_status(9, 3), JobStatus::Failed);
}

#[test]
fn settings_defaults() {
    let s = RunnerSettings::new();
    assert_eq!(s.effective_concurrency(), 5);
    assert_eq!(s.effective_job_timeout(), Duration::from_secs(300));
    assert_eq!(s.effective_max_retries(), i32::MAX);
}

#[test]
fn settings_overrides() {
    let s = RunnerSettings::new()
        .concurrency(3)
        .job_timeout(Duration::from_millis(2500))
        .max_retries(4);
    assert_eq!(s.effective_concurrency(), 3);
    assert_eq!(s.effective_job_timeout(), Duration::from_millis(2500));
    assert_eq!(s.effective_max_retries(), 4);
}
