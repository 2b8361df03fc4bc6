//! A background job queue: jobs are stored in a table, picked up by a runner
//! that keeps a bounded number of workers busy, and retried one minute after
//! they fail.

pub mod attempt;
pub mod errors;
pub mod event;
pub mod foreign;
pub mod job_signature;
pub mod queue;
pub mod registry;
pub mod scheduler;
pub mod settings;
pub mod status;
pub mod storage;

pub use errors::{EnqueueError, FailedJobsError, PerformError};
pub use event::{Event, JobRunnerError};
pub use registry::{Registry, RegistryEntry};
pub use scheduler::{Scheduler, SchedulerAction, TaskOutcome};
pub use settings::RunnerSettings;
pub use status::JobStatus;
pub use storage::{BackgroundJob, NewBackgroundJob};
