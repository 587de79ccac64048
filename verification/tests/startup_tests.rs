use priority_isolation::acceptor::{accept_action, AcceptorAction};
use priority_isolation::config::{SchedulerConfig, StartupError};
use priority_isolation::pool::worker_priorities;
use priority_isolation::startup::{ServerStartup, StartupEvent, StartupPhase};

fn config(worker_count: usize, worker_priority: i32) -> SchedulerConfig {
    SchedulerConfig::new(worker_count, worker_priority, "127.0.0.1:1234".to_string()).unwrap()
}

#[test]
fn clean_startup_reaches_accepting() {
    let c = config(3, 10);
    let mut s = ServerStartup::begin(&c);
    assert_eq!(s.phase, StartupPhase::Init);
    assert_eq!(s.workers_started, 0);

    s.apply(StartupEvent::BindSucceeded);
    for _ in 0..3 {
        s.apply(StartupEvent::WorkerSpawned);
    }
    s.apply(StartupEvent::AcceptingStarted);

    assert!(s.is_accepting());
    assert_eq!(s.workers_started, 3);
    assert_eq!(s.failure, None);
}

#[test]
fn startup_with_zero_workers_reaches_accepting() {
    let c = config(0, 10);
    let mut s = ServerStartup::begin(&c);
    s.apply(StartupEvent::BindSucceeded);
    s.apply(StartupEvent::AcceptingStarted);
    assert!(s.is_accepting());
    assert_eq!(s.workers_started, 0);
}

#[test]
fn failed_bind_aborts_with_no_worker_running() {
    let c = config(60, 10);
    let mut s = ServerStartup::begin(&c);
    s.apply(StartupEvent::BindFailed);
    assert_eq!(s.phase, StartupPhase::Failed);
    assert_eq!(s.failure, Some(StartupError::BindFailed));
    assert_eq!(s.workers_started, 0);
    assert!(!s.is_accepting());
}

#[test]
fn failed_spawn_aborts_the_whole_pool() {
    let c = config(4, 10);
    let mut s = ServerStartup::begin(&c);
    s.apply(StartupEvent::BindSucceeded);
    s.apply(StartupEvent::WorkerSpawned);
    s.apply(StartupEvent::WorkerSpawnFailed);
    assert_eq!(s.phase, StartupPhase::Failed);
    assert_eq!(s.failure, Some(StartupError::WorkerSpawnFailed));
    assert!(!s.is_accepting());
}

#[test]
fn accepting_cannot_start_before_the_pool_is_full() {
    let c = config(2, 10);
    let mut s = ServerStartup::begin(&c);
    s.apply(StartupEvent::BindSucceeded);
    s.apply(StartupEvent::WorkerSpawned);
    s.apply(StartupEvent::AcceptingStarted);
    assert_eq!(s.phase, StartupPhase::Bound);
    assert!(!s.is_accepting());
}

#[test]
fn workers_cannot_spawn_before_the_bind() {
    let c = config(2, 10);
    let mut s = ServerStartup::begin(&c);
    s.apply(StartupEvent::WorkerSpawned);
    assert_eq!(s.phase, StartupPhase::Init);
    assert_eq!(s.workers_started, 0);
}

#[test]
fn pool_plan_has_one_entry_per_worker_at_the_configured_priority() {
    let plan = worker_priorities(&config(5, 12));
    assert_eq!(plan.len(), 5);
    assert!(plan.iter().all(|p| *p == 12));

    let empty = worker_priorities(&config(0, 12));
    assert_eq!(empty.len(), 0);
}

#[test]
fn acceptor_dispatches_on_success_and_retries_on_failure() {
    assert_eq!(accept_action(true), AcceptorAction::DispatchHandler);
    assert_eq!(accept_action(false), AcceptorAction::RetryAccept);
}
