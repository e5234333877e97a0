use proxy_core::shutdown::{ShutdownCoordinator, ShutdownOutcome};

#[test]
fn tasks_within_grace_all_complete() {
    let mut coordinator = ShutdownCoordinator::new();
    coordinator.spawn_task(1, 5);
    coordinator.spawn_task(2, 10);
    coordinator.spawn_task(3, 20);
    let report = coordinator.shutdown_with_limit(30);
    assert_eq!(report.outcome, ShutdownOutcome::Finished);
    assert_eq!(report.finished, vec![1, 2, 3]);
    assert!(report.abandoned.is_empty());
}

#[test]
fn task_exceeding_grace_causes_timeout() {
    let mut coordinator = ShutdownCoordinator::new();
    coordinator.spawn_task(1, 5);
    coordinator.spawn_task(2, 50);
    coordinator.spawn_task(3, 10);
    let report = coordinator.shutdown_with_limit(20);
    assert_eq!(report.outcome, ShutdownOutcome::TimedOut);
    assert_eq!(report.finished, vec![1, 3]);
    assert_eq!(report.abandoned, vec![2]);
}

#[test]
fn shutdown_twice_has_the_effect_of_once() {
    let mut coordinator = ShutdownCoordinator::new();
    coordinator.spawn_task(1, 5);
    coordinator.trigger_shutdown();
    let first = coordinator.shutdown_with_limit(10);
    let second = coordinator.shutdown_with_limit(10);
    assert_eq!(first.outcome, second.outcome);
    assert_eq!(first.finished, second.finished);
    assert_eq!(first.abandoned, second.abandoned);
}

#[test]
fn empty_registry_drains_immediately() {
    let mut coordinator = ShutdownCoordinator::new();
    let report = coordinator.shutdown_with_limit(0);
    assert_eq!(report.outcome, ShutdownOutcome::Finished);
    assert!(report.finished.is_empty());
    assert!(report.abandoned.is_empty());
}

#[test]
fn task_finishing_exactly_at_the_deadline_completes() {
    let mut coordinator = ShutdownCoordinator::new();
    coordinator.spawn_task(7, 20);
    let report = coordinator.shutdown_with_limit(20);
    assert_eq!(report.outcome, ShutdownOutcome::Finished);
    assert_eq!(report.finished, vec![7]);
}
