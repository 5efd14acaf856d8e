use sidecar_supervisor::health::{classify, HealthState};
use sidecar_supervisor::monitor::HealthMonitor;
use sidecar_supervisor::supervisor::{descendants_of, ProcessEntry, Supervisor, WorkerHandle};

fn entry(pid: u32, parent: Option<u32>) -> ProcessEntry {
    ProcessEntry { pid, parent }
}

#[test]
fn terminate_on_absent_handle_is_noop() {
    let mut s: Supervisor<&str> = Supervisor::new();
    assert!(s.take_for_termination().is_none());
    assert!(s.worker_pid().is_none());
    assert!(!s.shutdown_requested());
}

#[test]
fn terminate_twice_kills_once() {
    let mut s = Supervisor::new();
    assert!(s.install(WorkerHandle { pid: 42, kill: "child" }).is_none());
    assert_eq!(s.worker_pid(), Some(42));
    let first = s.take_for_termination();
    assert_eq!(first.map(|h| (h.pid, h.kill)), Some((42, "child")));
    assert!(s.take_for_termination().is_none());
}

#[test]
fn install_hands_back_displaced_handle() {
    let mut s = Supervisor::new();
    s.install(WorkerHandle { pid: 1, kill: 'a' });
    let old = s.install(WorkerHandle { pid: 2, kill: 'b' });
    assert_eq!(old.map(|h| h.pid), Some(1));
    assert_eq!(s.worker_pid(), Some(2));
}

#[test]
fn shutdown_raises_flag_then_takes_handle() {
    let mut s = Supervisor::new();
    s.install(WorkerHandle { pid: 7, kill: () });
    let h = s.request_shutdown();
    assert_eq!(h.map(|h| h.pid), Some(7));
    assert!(s.shutdown_requested());
    assert!(s.worker_pid().is_none());
    assert!(s.request_shutdown().is_none());
    assert!(s.shutdown_requested());
}

#[test]
fn failed_spawn_degrades_to_stopped() {
    let mut s: Supervisor<()> = Supervisor::new();
    // spawn failed: nothing is installed
    assert!(s.worker_pid().is_none());
    let mut m = HealthMonitor::new();
    for _ in 0..3 {
        assert!(m.continue_polling(s.shutdown_requested()));
        assert_eq!(classify(&None), HealthState::Stopped);
        assert_eq!(m.observe(&None), None);
    }
    assert!(s.request_shutdown().is_none());
    assert!(!m.continue_polling(s.shutdown_requested()));
}

#[test]
fn one_descendant_is_selected() {
    let table = vec![entry(1, None), entry(100, Some(1)), entry(200, Some(100)), entry(300, Some(5))];
    assert_eq!(descendants_of(100, &table), vec![200]);
}

#[test]
fn only_direct_children_are_selected() {
    let table = vec![
        entry(100, Some(1)),
        entry(201, Some(100)),
        entry(301, Some(201)),
        entry(202, Some(100)),
    ];
    assert_eq!(descendants_of(100, &table), vec![201, 202]);
}

#[test]
fn no_children_and_empty_table() {
    assert!(descendants_of(100, &vec![]).is_empty());
    assert!(descendants_of(100, &vec![entry(100, None), entry(5, Some(4))]).is_empty());
}
