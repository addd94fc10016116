use tilia::lifecycle::{LifecycleManager, LifecyclePhase, ShutdownError};

#[test]
fn initialize_performs_only_once() {
    // Exactly one initialize call reports true; every later call finds the
    // work already done.
    let mut lc = LifecycleManager::new();
    assert!(!lc.is_started());
    assert!(lc.initialize());
    assert!(lc.is_started());
    assert_eq!(lc.current_phase(), LifecyclePhase::Running);
    assert!(!lc.initialize());
    assert!(!lc.initialize());
    assert_eq!(lc.current_phase(), LifecyclePhase::Running);
}

#[test]
fn shutdown_twice_succeeds_both_times() {
    let mut lc = LifecycleManager::new();
    lc.initialize();
    assert!(lc.shutdown().is_ok());
    assert_eq!(lc.current_phase(), LifecyclePhase::Drained);
    assert!(lc.shutdown().is_ok());
    assert_eq!(lc.current_phase(), LifecyclePhase::Drained);
}

#[test]
fn shutdown_waits_for_spawned_tasks() {
    let mut lc = LifecycleManager::new();
    lc.initialize();
    let t0 = lc.spawn("accept loop".to_string());
    let t1 = lc.spawn("forwarder".to_string());
    assert_eq!(lc.task_name(t0), "accept loop");
    assert_eq!(lc.task_name(t1), "forwarder");
    assert!(!lc.cancel_requested());
    assert!(lc.shutdown().is_ok());
    // Tasks still pending: cancellation is requested, not yet drained.
    assert!(lc.cancel_requested());
    assert_eq!(lc.current_phase(), LifecyclePhase::CancelRequested);
    lc.task_finished(t0);
    assert_eq!(lc.current_phase(), LifecyclePhase::CancelRequested);
    lc.task_finished(t1);
    assert_eq!(lc.current_phase(), LifecyclePhase::Drained);
    // A second shutdown finds everything done.
    assert!(lc.shutdown().is_ok());
    assert_eq!(lc.current_phase(), LifecyclePhase::Drained);
}

#[test]
fn shutdown_outcome_reports_timeout_while_tasks_pend() {
    let mut lc = LifecycleManager::new();
    lc.initialize();
    let t = lc.spawn("worker".to_string());
    lc.shutdown().unwrap();
    // The bounded wait ran out first: a reportable timeout, not a crash.
    assert_eq!(lc.shutdown_outcome(), Err(ShutdownError::Timeout));
    lc.task_finished(t);
    assert_eq!(lc.shutdown_outcome(), Ok(()));
}

#[test]
fn shutdown_before_initialize_is_a_clean_noop() {
    let mut lc = LifecycleManager::new();
    assert!(lc.shutdown().is_ok());
    assert_eq!(lc.current_phase(), LifecyclePhase::Drained);
}

#[test]
fn crashed_task_still_counts_as_finished() {
    // A task that errored or panicked reports in like any other; shutdown
    // completes once all have terminated, crashed or not.
    let mut lc = LifecycleManager::new();
    lc.initialize();
    let healthy = lc.spawn("healthy".to_string());
    let crashed = lc.spawn("crashed".to_string());
    lc.task_finished(crashed);
    assert!(!lc.check_all_finished());
    lc.shutdown().unwrap();
    lc.task_finished(healthy);
    assert!(lc.check_all_finished());
    assert_eq!(lc.current_phase(), LifecyclePhase::Drained);
}
