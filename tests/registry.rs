use remote_panel::registry::{reclaim_action, ProbeStatus, ProcessTracker, Reclaim, Watchdog, WATCHDOG_TIMEOUT_SECS};
use remote_panel::session::ActionError;

#[test]
fn register_schedules_one_watchdog() {
    let mut t: ProcessTracker<&str> = ProcessTracker::new();
    let w = t.register(41, "console");
    assert_eq!(w, Watchdog { pid: 41, timeout_secs: 30 });
    assert_eq!(WATCHDOG_TIMEOUT_SECS, 30);
    assert!(t.contains(41));
    assert_eq!(t.len(), 1);
}

#[test]
fn exited_process_is_released_not_terminated() {
    let mut t: ProcessTracker<&str> = ProcessTracker::new();
    let w = t.register(7, "P");
    assert_eq!(t.fire_watchdog(w.pid), Some("P"));
    assert_eq!(reclaim_action(ProbeStatus::Exited), Reclaim::Release);
    assert!(!t.contains(7));
}

#[test]
fn overdue_process_is_terminated_once() {
    let mut t: ProcessTracker<&str> = ProcessTracker::new();
    let w = t.register(8, "Q");
    let mut terminations = 0;
    for _ in 0..2 {
        if let Some(h) = t.fire_watchdog(w.pid) {
            assert_eq!(h, "Q");
            if reclaim_action(ProbeStatus::Running) == Reclaim::Terminate {
                terminations += 1;
            }
        }
    }
    assert_eq!(terminations, 1);
    assert_eq!(t.len(), 0);
}

#[test]
fn failed_probe_means_terminate() {
    assert_eq!(reclaim_action(ProbeStatus::Unknown), Reclaim::Terminate);
}

#[test]
fn sweep_takes_all_and_later_watchdogs_do_nothing() {
    let mut t: ProcessTracker<&str> = ProcessTracker::new();
    t.register(1, "a");
    t.register(2, "b");
    let mut drained = t.drain_all();
    drained.sort();
    assert_eq!(drained, vec![(1, "a"), (2, "b")]);
    assert_eq!(t.len(), 0);
    assert_eq!(t.fire_watchdog(1), None);
    assert_eq!(t.fire_watchdog(2), None);
    assert_eq!(t.len(), 0);
}

#[test]
fn sweep_of_empty_registry_is_empty() {
    let mut t: ProcessTracker<u8> = ProcessTracker::new();
    assert!(t.drain_all().is_empty());
}

#[test]
fn watchdog_for_other_pid_leaves_entry() {
    let mut t: ProcessTracker<&str> = ProcessTracker::new();
    t.register(3, "c");
    assert_eq!(t.fire_watchdog(4), None);
    assert!(t.contains(3));
}

#[test]
fn same_pid_registered_twice_keeps_one_entry() {
    let mut t: ProcessTracker<&str> = ProcessTracker::new();
    t.register(5, "old");
    t.register(5, "new");
    assert_eq!(t.len(), 1);
    assert_eq!(t.fire_watchdog(5), Some("new"));
}

#[test]
fn refused_spawn_registers_nothing() {
    let mut t: ProcessTracker<&str> = ProcessTracker::new();
    let r = t.track_spawn(Err::<(u32, &str), String>("denied".to_string()));
    assert_eq!(r, Err(ActionError::Spawn));
    assert_eq!(t.len(), 0);
    let r = t.track_spawn(Ok::<(u32, &str), String>((9, "ok")));
    assert_eq!(r, Ok(Watchdog { pid: 9, timeout_secs: 30 }));
    assert!(t.contains(9));
}
