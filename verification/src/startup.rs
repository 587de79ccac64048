//! Startup sequencing for the server process: bind the listening endpoint
//! first, then launch the worker pool, then begin accepting. The state
//! machine here is what keeps the order honest — in particular, a failed
//! bind aborts startup before any worker thread exists, and a failed worker
//! spawn aborts the whole pool rather than running degraded. The I/O shell
//! performs each step and feeds its outcome back as an event.

use vstd::prelude::*;
use crate::config::SchedulerConfig;
use crate::config::StartupError;

verus! {

/// Where process startup stands.
#[derive(Clone, Copy, Debug, PartialEq, Eq, Structural)]
pub enum StartupPhase {
    /// Nothing has happened yet; the endpoint is not bound.
    Init,
    /// The listening endpoint is bound; workers are being launched.
    Bound,
    /// All workers are launched and the acceptor loop is running.
    Running,
    /// Startup aborted on a fatal error; terminal.
    Failed,
}

/// The outcome of one startup step, fed back by the I/O shell.
#[derive(Clone, Copy, Debug, PartialEq, Eq, Structural)]
pub enum StartupEvent {
    /// The listening endpoint was bound.
    BindSucceeded,
    /// Binding the listening endpoint failed.
    BindFailed,
    /// One worker thread was spawned at its configured priority.
    WorkerSpawned,
    /// The OS refused a worker thread or its priority assignment.
    WorkerSpawnFailed,
    /// Every worker is up and the acceptor loop begins.
    AcceptingStarted,
}

/// The startup state: the phase, how many of the configured workers have
/// been launched, and the fatal error if startup failed.
pub struct ServerStartup {
    /// Current phase.
    pub phase: StartupPhase,
    /// Number of worker threads the configuration asks for.
    pub worker_target: usize,
    /// Number of worker threads launched so far.
    pub workers_started: usize,
    /// The fatal error, once the phase is `Failed`.
    pub failure: Option<StartupError>,
}

/// The state startup begins in for a pool of `worker_target` workers.
pub open spec fn startup_init(worker_target: usize) -> ServerStartup {
    ServerStartup {
        phase: StartupPhase::Init,
        worker_target,
        workers_started: 0,
        failure: None,
    }
}

/// The transition function. Binding happens only from `Init`; workers are
/// launched only after a successful bind and only up to the target;
/// accepting begins only once every configured worker is up. Any fatal
/// outcome moves to `Failed` and records which error it was; an event that
/// does not belong to the current phase changes nothing.
pub open spec fn startup_next(s: ServerStartup, e: StartupEvent) -> ServerStartup {
    match (s.phase, e) {
        (StartupPhase::Init, StartupEvent::BindSucceeded) => ServerStartup {
            phase: StartupPhase::Bound,
            ..s
        },
        (StartupPhase::Init, StartupEvent::BindFailed) => ServerStartup {
            phase: StartupPhase::Failed,
            failure: Some(StartupError::BindFailed),
            ..s
        },
        (StartupPhase::Bound, StartupEvent::WorkerSpawned) => if s.workers_started
            < s.worker_target {
            ServerStartup { workers_started: (s.workers_started + 1) as usize, ..s }
        } else {
            s
        },
        (StartupPhase::Bound, StartupEvent::WorkerSpawnFailed) => ServerStartup {
            phase: StartupPhase::Failed,
            failure: Some(StartupError::WorkerSpawnFailed),
            ..s
        },
        (StartupPhase::Bound, StartupEvent::AcceptingStarted) => if s.workers_started
            == s.worker_target {
            ServerStartup { phase: StartupPhase::Running, ..s }
        } else {
            s
        },
        (_, _) => s,
    }
}

impl ServerStartup {
    /// The startup invariant: workers exist only after a successful bind,
    /// a bind failure leaves none behind, a running server has its full
    /// pool, and an error is recorded exactly when startup failed.
    pub open spec fn wf(self) -> bool {
        &&& self.workers_started <= self.worker_target
        &&& (self.phase is Init ==> self.workers_started == 0)
        &&& (self.failure == Some(StartupError::BindFailed) ==> self.workers_started == 0)
        &&& (self.phase is Running ==> self.workers_started == self.worker_target)
        &&& (self.failure is Some <==> self.phase is Failed)
    }

    /// Begins startup for a validated configuration: endpoint not yet
    /// bound, no worker launched.
    pub fn begin(config: &SchedulerConfig) -> (s: ServerStartup)
        ensures
            s == startup_init(config.worker_count),
            s.wf(),
    {
        ServerStartup {
            phase: StartupPhase::Init,
            worker_target: config.worker_count,
            workers_started: 0,
            failure: None,
        }
    }

    /// Applies the outcome of one startup step, preserving the invariant.
    pub fn apply(&mut self, e: StartupEvent)
        requires
            old(self).wf(),
        ensures
            *final(self) == startup_next(*old(self), e),
            final(self).wf(),
    {
        match (self.phase, e) {
            (StartupPhase::Init, StartupEvent::BindSucceeded) => {
                self.phase = StartupPhase::Bound;
            },
            (StartupPhase::Init, StartupEvent::BindFailed) => {
                self.phase = StartupPhase::Failed;
                self.failure = Some(StartupError::BindFailed);
            },
            (StartupPhase::Bound, StartupEvent::WorkerSpawned) => {
                if self.workers_started < self.worker_target {
                    self.workers_started = self.workers_started + 1;
                }
            },
            (StartupPhase::Bound, StartupEvent::WorkerSpawnFailed) => {
                self.phase = StartupPhase::Failed;
                self.failure = Some(StartupError::WorkerSpawnFailed);
            },
            (StartupPhase::Bound, StartupEvent::AcceptingStarted) => {
                if self.workers_started == self.worker_target {
                    self.phase = StartupPhase::Running;
                }
            },
            (_, _) => {},
        }
    }

    /// Whether the server reached the accepting loop.
    pub fn is_accepting(&self) -> (r: bool)
        ensures
            r <==> self.phase is Running,
    {
        match self.phase {
            StartupPhase::Running => true,
            _ => false,
        }
    }
}

/// Every step of the transition function preserves the startup invariant.
pub proof fn lemma_startup_next_preserves_wf(s: ServerStartup, e: StartupEvent)
    requires
        s.wf(),
    ensures
        startup_next(s, e).wf(),
{
}

/// A failed bind leaves no worker running: in any reachable startup state
/// whose recorded error is the bind failure, the worker count is zero.
pub proof fn lemma_failed_bind_leaves_no_workers(s: ServerStartup)
    requires
        s.wf(),
        s.failure == Some(StartupError::BindFailed),
    ensures
        s.phase is Failed,
        s.workers_started == 0,
{
}

/// The state after a whole sequence of startup events.
pub open spec fn startup_run(s: ServerStartup, events: Seq<StartupEvent>) -> ServerStartup
    decreases events.len(),
{
    if events.len() == 0 {
        s
    } else {
        startup_run(startup_next(s, events[0]), events.skip(1))
    }
}

/// The event sequence of an unimpeded startup: a successful bind, one
/// successful spawn per configured worker, then the move to accepting.
pub open spec fn clean_startup_events(worker_target: usize) -> Seq<StartupEvent> {
    seq![StartupEvent::BindSucceeded] + Seq::new(
        worker_target as nat,
        |i: int| StartupEvent::WorkerSpawned,
    ) + seq![StartupEvent::AcceptingStarted]
}

/// Helper for the startup theorem: from a bound state with `k` workers up,
/// the remaining spawns followed by the accepting step reach `Running` with
/// the full pool.
proof fn lemma_spawns_complete(s: ServerStartup, n: nat)
    requires
        s.wf(),
        s.phase is Bound,
        s.worker_target - s.workers_started == n,
    ensures
        startup_run(
            s,
            Seq::new(n, |i: int| StartupEvent::WorkerSpawned) + seq![
                StartupEvent::AcceptingStarted,
            ],
        ) == (ServerStartup {
            phase: StartupPhase::Running,
            workers_started: s.worker_target,
            ..s
        }),
    decreases n,
{
    let events = Seq::new(n, |i: int| StartupEvent::WorkerSpawned) + seq![
        StartupEvent::AcceptingStarted,
    ];
    if n == 0 {
        let s1 = startup_next(s, StartupEvent::AcceptingStarted);
        assert(events[0] == StartupEvent::AcceptingStarted);
        assert(startup_run(s, events) == startup_run(s1, events.skip(1)));
        assert(events.skip(1) =~= Seq::<StartupEvent>::empty());
        assert(startup_run(s1, events.skip(1)) == s1);
        assert(s1 == (ServerStartup {
            phase: StartupPhase::Running,
            workers_started: s.worker_target,
            ..s
        }));
    } else {
        let s1 = startup_next(s, StartupEvent::WorkerSpawned);
        lemma_startup_next_preserves_wf(s, StartupEvent::WorkerSpawned);
        assert(events[0] == StartupEvent::WorkerSpawned);
        assert(startup_run(s, events) == startup_run(s1, events.skip(1)));
        assert(events.skip(1) =~= Seq::new((n - 1) as nat, |i: int| StartupEvent::WorkerSpawned)
            + seq![StartupEvent::AcceptingStarted]);
        lemma_spawns_complete(s1, (n - 1) as nat);
    }
}

/// The server starts for every configured worker count: when the bind and
/// every spawn succeed, startup runs to completion — the phase is
/// `Running`, exactly the configured number of workers is up, and no error
/// is recorded. This holds for any `worker_target`, zero included.
pub proof fn lemma_clean_startup_reaches_accepting(worker_target: usize)
    ensures
        startup_run(startup_init(worker_target), clean_startup_events(worker_target))
            == (ServerStartup {
            phase: StartupPhase::Running,
            worker_target,
            workers_started: worker_target,
            failure: None,
        }),
{
    let s0 = startup_init(worker_target);
    let events = clean_startup_events(worker_target);
    let s1 = startup_next(s0, StartupEvent::BindSucceeded);
    assert(events[0] == StartupEvent::BindSucceeded);
    assert(startup_run(s0, events) == startup_run(s1, events.skip(1)));
    assert(events.skip(1) =~= Seq::new(worker_target as nat, |i: int| StartupEvent::WorkerSpawned)
        + seq![StartupEvent::AcceptingStarted]);
    lemma_spawns_complete(s1, worker_target as nat);
}

} // verus!
