use swirl::attempt::{
    panic_message, resolve_attempt, step_after_fetch, step_after_lookup, unrecognized_job,
    FetchStep, JobUpdate, PerformOutcome,
};
use swirl::{BackgroundJob, Event};

fn job() -> BackgroundJob {
    BackgroundJob {
        id: "abc".to_string(),
        job_type: "resize".to_string(),
        data: serde_json::Value::Null,
        retries: 0,
    }
}

#[test]
fn fetched_job_is_run() {
    match step_after_fetch(Ok(job())) {
        FetchStep::Run(j) => assert_eq!(j.id, "abc"),
        other => panic!("unexpected {:?}", other),
    }
}

#[test]
fn no_job_means_idle() {
    assert!(matches!(step_after_fetch(Err(diesel::result::Error::NotFound)), FetchStep::Idle));
    assert!(matches!(step_after_lookup(Ok(None)), FetchStep::Idle));
}

#[test]
fn load_error_stops_the_runner() {
    match step_after_fetch(Err(diesel::result::Error::RollbackTransaction)) {
        FetchStep::Fail(Event::ErrorLoadingJob(diesel::result::Error::RollbackTransaction)) => {}
        other => panic!("unexpected {:?}", other),
    }
    assert!(matches!(
        step_after_lookup(Err(diesel::result::Error::NotFound)),
        FetchStep::Fail(Event::ErrorLoadingJob(_))
    ));
}

#[test]
fn unknown_job_type_message() {
    match unrecognized_job(&"resize".to_string(), &"abc".to_string()) {
        Event::UnrecognizedJob(msg) => assert_eq!(msg, "Unknown job type resize for job abc"),
        other => panic!("unexpected {:?}", other),
    }
}

#[test]
fn panic_messages() {
    assert_eq!(panic_message(Some("boom".to_string())), "job panicked: boom");
    assert_eq!(panic_message(None), "job panicked");
}

#[test]
fn job_results_decide_update_and_runner() {
    let (u, r) = resolve_attempt(PerformOutcome::Returned(Ok(())));
    assert_eq!(u, JobUpdate::MarkSucceeded);
    assert!(r.is_ok());
    let (u, r) = resolve_attempt(PerformOutcome::Returned(Err("nope".to_string())));
    assert_eq!(u, JobUpdate::MarkFailed);
    assert!(r.is_ok());
    let (u, r) = resolve_attempt(PerformOutcome::TimedOut);
    assert_eq!(u, JobUpdate::MarkFailed);
    assert!(r.is_ok());
    let (u, r) = resolve_attempt(PerformOutcome::Panicked(Some("boom".to_string())));
    assert_eq!(u, JobUpdate::MarkFailed);
    match r {
        Err(Event::PanicOccurred(msg)) => assert_eq!(msg, "job panicked: boom"),
        other => panic!("unexpected {:?}", other),
    }
}
