use nimool::idx::{AddDocConfig, AddStep, IndexDescriptor};
use nimool::maintenance::{MaintenanceAction, MaintenanceEvent, Maintainer};

#[test]
fn test_tokio_interval() {
    // a loop ticking every second, stopped after ten seconds
    let mut m = Maintainer::new(1000);
    assert_eq!(m.tick_interval(), 1000);
    for _ in 0..10 {
        assert_eq!(m.on_event(MaintenanceEvent::Tick, 0), MaintenanceAction::Idle);
    }
    assert_eq!(m.on_event(MaintenanceEvent::Shutdown, 0), MaintenanceAction::Exit);
    assert!(m.is_stopped());
}

#[test]
fn tick_commits_pending_writes_once() {
    let mut d = IndexDescriptor::new("products", vec![]);
    let mut m = Maintainer::new(5000);
    for id in 0..4u64 {
        assert_eq!(d.add_document(Ok(id), AddDocConfig { commit: false }), AddStep::Done(Ok(id)));
    }
    assert_eq!(d.uncommitted_count(), 4);
    let mut commits = 0;
    for _ in 0..2 {
        if m.on_event(MaintenanceEvent::Tick, d.uncommitted_count()) == MaintenanceAction::Commit {
            commits += 1;
            assert_eq!(d.commit_finished(Ok(42)), Ok(42));
        }
    }
    assert_eq!(commits, 1);
    assert_eq!(d.uncommitted_count(), 0);
}

#[test]
fn failed_commit_is_retried_on_the_next_tick() {
    let mut d = IndexDescriptor::new("products", vec![]);
    let mut m = Maintainer::new(5000);
    d.add_document(Ok(1), AddDocConfig { commit: false });
    d.add_document(Ok(2), AddDocConfig { commit: false });
    assert_eq!(m.on_event(MaintenanceEvent::Tick, d.uncommitted_count()), MaintenanceAction::Commit);
    assert!(d.commit_finished(Err("io error".to_string())).is_err());
    assert_eq!(d.uncommitted_count(), 2);
    assert_eq!(m.on_event(MaintenanceEvent::Tick, d.uncommitted_count()), MaintenanceAction::Commit);
    assert_eq!(d.commit_finished(Ok(3)), Ok(3));
    assert_eq!(d.uncommitted_count(), 0);
}

#[test]
fn no_commit_after_shutdown() {
    let mut d = IndexDescriptor::new("products", vec![]);
    let mut m = Maintainer::new(5000);
    assert_eq!(m.on_event(MaintenanceEvent::Shutdown, 0), MaintenanceAction::Exit);
    for id in 0..3u64 {
        d.add_document(Ok(id), AddDocConfig { commit: false });
        assert_eq!(m.on_event(MaintenanceEvent::Tick, d.uncommitted_count()), MaintenanceAction::Exit);
    }
    // writes pending at shutdown are not flushed
    assert_eq!(d.uncommitted_count(), 3);
}

#[test]
fn timer_failure_ends_the_loop() {
    let mut m = Maintainer::new(5000);
    assert_eq!(m.on_event(MaintenanceEvent::TimerFailed, 9), MaintenanceAction::Exit);
    assert!(m.is_stopped());
    assert_eq!(m.on_event(MaintenanceEvent::Tick, 9), MaintenanceAction::Exit);
}
