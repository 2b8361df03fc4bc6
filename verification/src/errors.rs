//! Errors of enqueueing and of checking for failed jobs.
use vstd::prelude::*;

verus! {

/// An error that occurred performing a job: its description.
pub type PerformError = String;

/// An error that occurred queueing a job.
#[derive(Debug)]
pub enum EnqueueError {
    /// An error occurred serializing the job
    SerializationError(serde_json::Error),
    /// An error occurred inserting the job into the database
    DatabaseError(diesel::result::Error),
}

impl From<serde_json::Error> for EnqueueError {
    fn from(e: serde_json::Error) -> (r: Self) {
        EnqueueError::SerializationError(e)
    }
}

impl vstd::std_specs::convert::FromSpecImpl<serde_json::Error> for EnqueueError {
    open spec fn obeys_from_spec() -> bool {
        true
    }

    open spec fn from_spec(v: serde_json::Error) -> Self {
        EnqueueError::SerializationError(v)
    }
}

impl From<diesel::result::Error> for EnqueueError {
    fn from(e: diesel::result::Error) -> (r: Self) {
        EnqueueError::DatabaseError(e)
    }
}

impl vstd::std_specs::convert::FromSpecImpl<diesel::result::Error> for EnqueueError {
    open spec fn obeys_from_spec() -> bool {
        true
    }

    open spec fn from_spec(v: diesel::result::Error) -> Self {
        EnqueueError::DatabaseError(v)
    }
}

/// An error returned when checking for jobs that failed.
#[derive(Debug)]
pub enum FailedJobsError {
    /// Jobs failed to run: the number of failed jobs
    JobsFailed(i64),
    /// A panic occurred while a job ran
    PanicOccurred,
    /// Some other error occurred; its description. Match on `_` instead,
    /// more variants may be added in the future.
    __Unknown(String),
}

/// When two failed-jobs errors compare equal: only two counts of failed jobs
/// can, and then exactly when the counts agree.
pub open spec fn failed_jobs_errors_equal(a: FailedJobsError, b: FailedJobsError) -> bool {
    match (a, b) {
        (FailedJobsError::JobsFailed(x), FailedJobsError::JobsFailed(y)) => x == y,
        _ => false,
    }
}

impl PartialEq for FailedJobsError {
    fn eq(&self, other: &Self) -> (r: bool) {
        match (self, other) {
            (FailedJobsError::JobsFailed(x), FailedJobsError::JobsFailed(y)) => *x == *y,
            _ => false,
        }
    }
}

impl vstd::std_specs::cmp::PartialEqSpecImpl for FailedJobsError {
    open spec fn obeys_eq_spec() -> bool {
        true
    }

    open spec fn eq_spec(&self, other: &Self) -> bool {
        failed_jobs_errors_equal(*self, *other)
    }
}

impl<T> From<std::sync::PoisonError<T>> for FailedJobsError {
    fn from(e: std::sync::PoisonError<T>) -> (r: Self) {
        FailedJobsError::PanicOccurred
    }
}

impl<T> vstd::std_specs::convert::FromSpecImpl<std::sync::PoisonError<T>> for FailedJobsError {
    open spec fn obeys_from_spec() -> bool {
        true
    }

    open spec fn from_spec(v: std::sync::PoisonError<T>) -> Self {
        FailedJobsError::PanicOccurred
    }
}

/// The character of a decimal digit `d` (0 to 9).
pub open spec fn digit_char(d: int) -> char {
    (('0' as int) + d) as char
}

/// The decimal digits of a natural number, most significant first.
pub open spec fn decimal_digits(n: nat) -> Seq<char>
    decreases n,
{
    if n < 10 {
        seq![digit_char(n as int)]
    } else {
        decimal_digits(n / 10).push(digit_char((n % 10) as int))
    }
}

/// The decimal text of an integer, with a leading `-` when it is negative.
pub open spec fn decimal_text(x: int) -> Seq<char> {
    if x < 0 {
        seq!['-'] + decimal_digits((-x) as nat)
    } else {
        decimal_digits(x as nat)
    }
}

/// The text of one decimal digit `d` (0 to 9).
fn digit_str(d: u64) -> (s: &'static str)
    requires
        d < 10,
    ensures
        s@ == seq![digit_char(d as int)],
{
    proof {
        reveal_strlit("0");
        reveal_strlit("1");
        reveal_strlit("2");
        reveal_strlit("3");
        reveal_strlit("4");
        reveal_strlit("5");
        reveal_strlit("6");
        reveal_strlit("7");
        reveal_strlit("8");
        reveal_strlit("9");
    }
    if d == 0 {
        "0"
    } else if d == 1 {
        "1"
    } else if d == 2 {
        "2"
    } else if d == 3 {
        "3"
    } else if d == 4 {
        "4"
    } else if d == 5 {
        "5"
    } else if d == 6 {
        "6"
    } else if d == 7 {
        "7"
    } else if d == 8 {
        "8"
    } else {
        "9"
    }
}

/// Appends the decimal digits of `n` to `s`.
fn push_decimal_digits(n: u64, s: &mut String)
    ensures
        final(s)@ == old(s)@ + decimal_digits(n as nat),
    decreases n,
{
    if n >= 10 {
        push_decimal_digits(n / 10, s);
    }
    s.append(digit_str(n % 10));
    proof {
        if n >= 10 {
            assert(decimal_digits(n as nat) == decimal_digits((n / 10) as nat).push(
                digit_char((n % 10) as int),
            ));
        }
    }
}

/// The decimal text of an `i64`, with a leading `-` when it is negative.
fn i64_text(x: i64) -> (s: String)
    ensures
        s@ == decimal_text(x as int),
{
    let mut s = String::new();
    if x < 0 {
        s.append("-");
        proof {
            reveal_strlit("-");
        }
        let magnitude: u64 = (-(x as i128)) as u64;
        push_decimal_digits(magnitude, &mut s);
    } else {
        push_decimal_digits(x as u64, &mut s);
    }
    s
}

/// The description of a failed-jobs error.
pub open spec fn failed_jobs_error_text(e: FailedJobsError) -> Seq<char> {
    match e {
        FailedJobsError::JobsFailed(x) => decimal_text(x as int) + " jobs failed"@,
        FailedJobsError::PanicOccurred => "A panic occurred while executing the job"@,
        FailedJobsError::__Unknown(msg) => msg@,
    }
}

/// The text that diesel's `Display` writes for a database error.
pub uninterp spec fn database_error_text(e: diesel::result::Error) -> Seq<char>;

/// The text that deadpool's `Display` writes for a pool error.
pub uninterp spec fn pool_error_text(e: deadpool_diesel::PoolError) -> Seq<char>;

/// Formats a database error with diesel's `Display` impl, whose text is a
/// function of the error alone.
#[verifier::external_body]
fn describe_database_error(e: &diesel::result::Error) -> (s: String)
    ensures
        s@ == database_error_text(*e),
{
    e.to_string()
}

/// Formats a pool error with deadpool's `Display` impl, whose text is a
/// function of the error alone.
#[verifier::external_body]
fn describe_pool_error(e: &deadpool_diesel::PoolError) -> (s: String)
    ensures
        s@ == pool_error_text(*e),
{
    e.to_string()
}

impl FailedJobsError {
    /// An error of the database, kept by its description.
    pub fn from_database_error(e: diesel::result::Error) -> (r: Self)
        ensures
            r matches FailedJobsError::__Unknown(msg) && msg@ == database_error_text(e),
    {
        FailedJobsError::__Unknown(describe_database_error(&e))
    }

    /// An error of the connection pool, kept by its description.
    pub fn from_pool_error(e: deadpool_diesel::PoolError) -> (r: Self)
        ensures
            r matches FailedJobsError::__Unknown(msg) && msg@ == pool_error_text(e),
    {
        FailedJobsError::__Unknown(describe_pool_error(&e))
    }

    /// An error of another kind, described by `message`.
    pub fn unknown(message: String) -> (e: Self)
        ensures
            e == FailedJobsError::__Unknown(message),
    {
        FailedJobsError::__Unknown(message)
    }

    /// The description of this error.
    pub fn to_string(&self) -> (s: String)
        ensures
            s@ == failed_jobs_error_text(*self),
    {
        match self {
            FailedJobsError::JobsFailed(x) => {
                let mut s = i64_text(*x);
                s.append(" jobs failed");
                s
            },
            FailedJobsError::PanicOccurred => String::from_str(
                "A panic occurred while executing the job",
            ),
            FailedJobsError::__Unknown(msg) => msg.clone(),
        }
    }
}

} // verus!
