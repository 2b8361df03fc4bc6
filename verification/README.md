# swirl

A background job queue on PostgreSQL. Jobs are rows of a table; a runner keeps
a bounded number of job attempts going, each inside a transaction that locks
the job's row; a job that fails is retried one minute after its failure.

The crate is in two parts:

- `src/` — the verified library (Verus). It holds every decision the queue
  takes, with contracts and proved laws:
  - `scheduler` — when the runner starts another attempt, when it waits, when
    it shuts down; never more attempts than configured, none after an error.
  - `attempt` — what one attempt does with the job it found (or did not
    find), with an unknown job type, and with how the job ended.
  - `queue` — which rows may be handed out (status, retry limit, a wait of
    one minute after the last failure), which comes first, and how a row
    changes after success or failure.
  - `storage` — the rows read and written; new rows get a random base-58 id.
  - `registry` — job types registered for the runner's environment; the last
    registration of a type wins.
  - `job_signature` — the checks of the `background_job` attribute and how it
    sorts a function's parameters into environment, pool and arguments.
  - `settings`, `status`, `errors`, `event` — configuration defaults, status
    texts, error types.
- `app/` — plain Rust around it: the diesel queries, the connection pool, the
  tokio loop that performs what the scheduler decides, the `inventory`-based
  registration of jobs, and the code generation of the attribute.
