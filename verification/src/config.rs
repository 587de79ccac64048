//! Process-wide scheduler configuration, read once at startup: how many
//! background workers to run, at which OS scheduling priority, and where to
//! listen. An out-of-range priority is a configuration error caught here,
//! never silently clamped.

use vstd::prelude::*;

verus! {

/// Most favorable priority value the host accepts for a thread. The host
/// convention is that a lower numeric value means a higher scheduling
/// priority.
pub const MIN_PRIORITY: i32 = -20;

/// Least favorable priority value the host accepts for a thread.
pub const MAX_PRIORITY: i32 = 19;

/// The priority a thread runs at when nothing sets one: the priority of the
/// event-driven scheduler's own threads, against which the workers' priority
/// is contrasted.
pub const DEFAULT_PRIORITY: i32 = 0;

/// A fatal error during process startup. Any of these aborts the process
/// before it accepts a connection.
#[derive(Clone, Copy, Debug, PartialEq, Eq, Structural)]
pub enum StartupError {
    /// The configured worker priority is outside the host's legal range.
    InvalidPriority,
    /// The listening endpoint could not be bound.
    BindFailed,
    /// The OS refused to create a worker thread or to set its priority.
    WorkerSpawnFailed,
}

/// Whether the host accepts `p` as a thread priority.
pub open spec fn priority_valid(p: int) -> bool {
    MIN_PRIORITY <= p <= MAX_PRIORITY
}

/// Read-only configuration constructed once at startup.
#[derive(Clone, Debug)]
pub struct SchedulerConfig {
    /// Number of background worker threads; zero is a valid baseline.
    pub worker_count: usize,
    /// OS scheduling priority applied to each background worker thread.
    pub worker_priority: i32,
    /// The `host:port` endpoint the acceptor listens on.
    pub listen_address: String,
}

impl SchedulerConfig {
    /// A well-formed configuration carries a priority the host accepts.
    pub open spec fn wf(self) -> bool {
        priority_valid(self.worker_priority as int)
    }

    /// Validates and builds a configuration. Succeeds exactly when the
    /// priority lies in the host's legal range; any worker count is
    /// accepted.
    pub fn new(worker_count: usize, worker_priority: i32, listen_address: String) -> (r: Result<
        SchedulerConfig,
        StartupError,
    >)
        ensures
            r is Ok <==> priority_valid(worker_priority as int),
            r matches Ok(c) ==> c.worker_count == worker_count && c.worker_priority
                == worker_priority && c.listen_address@ == listen_address@ && c.wf(),
            r matches Err(e) ==> e is InvalidPriority,
    {
        if worker_priority < MIN_PRIORITY || worker_priority > MAX_PRIORITY {
            Err(StartupError::InvalidPriority)
        } else {
            Ok(SchedulerConfig { worker_count, worker_priority, listen_address })
        }
    }
}

} // verus!
