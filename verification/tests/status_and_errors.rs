use swirl::errors::FailedJobsError;
use swirl::{EnqueueError, Event, JobStatus};

#[test]
fn job_status_texts() {
    assert_eq!(JobStatus::Queued.to_string(), "Queued");
    assert_eq!(JobStatus::Succeeded.to_string(), "Succeeded");
    assert_eq!(JobStatus::FailedReQueued.to_string(), "FailedReQueued");
    assert_eq!(JobStatus::Failed.to_string(), "Failed");
}

#[test]
fn failed_jobs_error_equality() {
    assert!(FailedJobsError::JobsFailed(3) == FailedJobsError::JobsFailed(3));
    assert!(FailedJobsError::JobsFailed(3) != FailedJobsError::JobsFailed(4));
    assert!(FailedJobsError::PanicOccurred != FailedJobsError::PanicOccurred);
    assert!(FailedJobsError::JobsFailed(0) != FailedJobsError::PanicOccurred);
    assert!(FailedJobsError::unknown("x".to_string()) != FailedJobsError::unknown("x".to_string()));
}

#[test]
fn failed_jobs_error_texts() {
    assert_eq!(FailedJobsError::JobsFailed(3).to_string(), "3 jobs failed");
    assert_eq!(FailedJobsError::JobsFailed(0).to_string(), "0 jobs failed");
    assert_eq!(FailedJobsError::JobsFailed(-12).to_string(), "-12 jobs failed");
    assert_eq!(
        FailedJobsError::JobsFailed(i64::MIN).to_string(),
        "-9223372036854775808 jobs failed"
    );
    assert_eq!(
        FailedJobsError::PanicOccurred.to_string(),
        "A panic occurred while executing the job"
    );
    assert_eq!(FailedJobsError::unknown("db down".to_string()).to_string(), "db down");
}

#[test]
fn poisoned_lock_means_a_panic() {
    let err = std::sync::PoisonError::new(5u8);
    let e: FailedJobsError = err.into();
    assert!(matches!(e, FailedJobsError::PanicOccurred));
}

#[test]
fn enqueue_error_from_its_causes() {
    let json_err = serde_json::from_str::<u8>("not json").unwrap_err();
    let e: EnqueueError = json_err.into();
    assert!(matches!(e, EnqueueError::SerializationError(_)));
    let e: EnqueueError = diesel::result::Error::NotFound.into();
    assert!(matches!(e, EnqueueError::DatabaseError(diesel::result::Error::NotFound)));
}

#[test]
fn transaction_errors_become_txn_internal() {
    let ev: Event = diesel::result::Error::RollbackTransaction.into();
    assert!(matches!(ev, Event::TxnInternal(diesel::result::Error::RollbackTransaction)));
    assert_eq!(
        format!("{:?}", Event::PanicOccurred("boom".to_string())),
        "PanicOccurred(\"boom\")"
    );
}

#[test]
fn failed_jobs_error_from_database_and_pool_errors() {
    let e = FailedJobsError::from_database_error(diesel::result::Error::NotFound);
    assert_eq!(e.to_string(), "Record not found");
    assert!(matches!(e, FailedJobsError::__Unknown(_)));
    let e = FailedJobsError::from_pool_error(deadpool_diesel::PoolError::Closed);
    assert_eq!(e.to_string(), "Pool has been closed");
}
