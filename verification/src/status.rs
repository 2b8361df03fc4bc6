use vstd::prelude::*;

verus! {

/// Where a job stands in the queue.
#[derive(Debug, Clone, Copy, PartialEq, Eq, Structural)]
pub enum JobStatus {
    Queued,
    Succeeded,
    FailedReQueued,
    Failed,
}

/// The text under which a status is stored.
pub open spec fn status_text(s: JobStatus) -> Seq<char> {
    match s {
        JobStatus::Queued => "Queued"@,
        JobStatus::Succeeded => "Succeeded"@,
        JobStatus::FailedReQueued => "FailedReQueued"@,
        JobStatus::Failed => "Failed"@,
    }
}

impl JobStatus {
    /// The text under which this status is stored in the queue table.
    pub fn to_string(&self) -> (s: String)
        ensures
            s@ == status_text(*self),
    {
        match self {
            JobStatus::Queued => String::from_str("Queued"),
            JobStatus::Succeeded => String::from_str("Succeeded"),
            JobStatus::FailedReQueued => String::from_str("FailedReQueued"),
            JobStatus::Failed => String::from_str("Failed"),
        }
    }
}

/// Different statuses are stored under different texts, so a status can be
/// told from the stored text alone.
pub proof fn law_status_texts_distinct(a: JobStatus, b: JobStatus)
    ensures
        a != b ==> status_text(a) != status_text(b),
{
    reveal_strlit("Queued");
    reveal_strlit("Succeeded");
    reveal_strlit("FailedReQueued");
    reveal_strlit("Failed");
    if a != b {
        assert(status_text(a).len() != status_text(b).len() || status_text(a)[0] != status_text(b)[0]);
    }
}

} // verus!
