use swirl::{Event, Scheduler, SchedulerAction, TaskOutcome};

fn join_error() -> tokio::task::JoinError {
    let rt = tokio::runtime::Builder::new_current_thread().build().unwrap();
    rt.block_on(async {
        let handle = tokio::spawn(async {
            panic!("task failed");
        });
        handle.await.unwrap_err()
    })
}

#[test]
fn fills_up_to_concurrency_then_waits() {
    let mut s = Scheduler::new(2);
    assert_eq!(s.next_action(), SchedulerAction::Spawn);
    s.task_started();
    assert_eq!(s.next_action(), SchedulerAction::Spawn);
    s.task_started();
    assert_eq!(s.running(), 2);
    assert_eq!(s.next_action(), SchedulerAction::AwaitCompletion);
}

#[test]
fn finished_and_timed_out_jobs_are_replaced() {
    let mut s = Scheduler::new(1);
    s.task_started();
    assert!(s.task_finished(TaskOutcome::Finished(Ok(()))));
    assert_eq!(s.running(), 1);
    assert!(s.task_finished(TaskOutcome::TimedOut));
    assert_eq!(s.running(), 1);
    assert!(!s.has_failed());
    assert_eq!(s.next_action(), SchedulerAction::AwaitCompletion);
}

#[test]
fn error_stops_new_jobs_and_shuts_down_when_idle() {
    let mut s = Scheduler::new(3);
    s.task_started();
    s.task_started();
    let respawn = s.task_finished(TaskOutcome::Finished(Err(Event::PanicOccurred(
        "job panicked".to_string(),
    ))));
    assert!(!respawn);
    assert!(s.has_failed());
    assert_eq!(s.running(), 1);
    // below the limit, but an error is recorded
    assert_eq!(s.next_action(), SchedulerAction::AwaitCompletion);
    // a later success or timeout is not replaced
    assert!(!s.task_finished(TaskOutcome::TimedOut));
    assert_eq!(s.running(), 0);
    assert_eq!(s.next_action(), SchedulerAction::Shutdown);
    match s.into_error() {
        Some(Event::PanicOccurred(msg)) => assert_eq!(msg, "job panicked"),
        other => panic!("unexpected {:?}", other),
    }
}

#[test]
fn failed_task_stops_the_runner() {
    let mut s = Scheduler::new(1);
    s.task_started();
    assert!(!s.task_finished(TaskOutcome::JoinFailed(join_error())));
    assert_eq!(s.next_action(), SchedulerAction::Shutdown);
    assert!(matches!(s.into_error(), Some(Event::TaskExecutionFailed(_))));
}

#[test]
fn later_error_replaces_earlier_one() {
    let mut s = Scheduler::new(2);
    s.task_started();
    s.task_started();
    s.task_finished(TaskOutcome::Finished(Err(Event::UnrecognizedJob("a".to_string()))));
    s.task_finished(TaskOutcome::Finished(Err(Event::UnrecognizedJob("b".to_string()))));
    match s.into_error() {
        Some(Event::UnrecognizedJob(msg)) => assert_eq!(msg, "b"),
        other => panic!("unexpected {:?}", other),
    }
}

#[test]
fn zero_concurrency_never_starts() {
    let s = Scheduler::new(0);
    assert_eq!(s.next_action(), SchedulerAction::AwaitCompletion);
    assert_eq!(s.running(), 0);
}
