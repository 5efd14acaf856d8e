use sidecar_supervisor::health::{HealthSample, HealthState};
use sidecar_supervisor::monitor::HealthMonitor;

fn sample(status: &str, connected: bool) -> Option<HealthSample> {
    Some(HealthSample::new(status.to_string(), connected))
}

#[test]
fn initial_state_is_stopped() {
    let m = HealthMonitor::new();
    assert_eq!(m.last_state(), HealthState::Stopped);
    assert!(m.is_active());
}

#[test]
fn repeated_state_fires_no_callback() {
    let mut m = HealthMonitor::new();
    assert_eq!(m.observe(&sample("ok", true)), Some(HealthState::Running));
    assert_eq!(m.observe(&sample("ok", true)), None);
    assert_eq!(m.last_state(), HealthState::Running);
}

#[test]
fn running_waiting_running_fires_twice_after_first() {
    let mut m = HealthMonitor::new();
    assert_eq!(m.observe(&sample("ok", true)), Some(HealthState::Running));
    let mut fired = Vec::new();
    for poll in [sample("ok", false), sample("ok", true)] {
        if let Some(s) = m.observe(&poll) {
            fired.push(s);
        }
    }
    assert_eq!(fired, vec![HealthState::Waiting, HealthState::Running]);
}

#[test]
fn stopped_polls_from_initial_fire_nothing() {
    let mut m = HealthMonitor::new();
    assert_eq!(m.observe(&None), None);
    assert_eq!(m.observe(&sample("error", true)), None);
    assert_eq!(m.last_state(), HealthState::Stopped);
}

#[test]
fn state_follows_latest_sample_only() {
    let mut a = HealthMonitor::new();
    let mut b = HealthMonitor::new();
    a.observe(&sample("ok", true));
    a.observe(&None);
    a.observe(&sample("ok", false));
    b.observe(&sample("error", false));
    b.observe(&sample("ok", false));
    assert_eq!(a.last_state(), HealthState::Waiting);
    assert_eq!(a.last_state(), b.last_state());
}

#[test]
fn unreachable_and_unhealthy_are_the_same() {
    let mut a = HealthMonitor::new();
    a.observe(&sample("ok", true));
    assert_eq!(a.observe(&None), Some(HealthState::Stopped));
    let mut b = HealthMonitor::new();
    b.observe(&sample("ok", true));
    assert_eq!(b.observe(&sample("error", true)), Some(HealthState::Stopped));
}

#[test]
fn no_callback_after_shutdown_seen() {
    let mut m = HealthMonitor::new();
    assert!(m.continue_polling(false));
    assert_eq!(m.observe(&sample("ok", true)), Some(HealthState::Running));
    assert!(!m.continue_polling(true));
    assert_eq!(m.observe(&None), None);
    assert_eq!(m.observe(&sample("ok", false)), None);
    assert!(!m.continue_polling(false));
    assert_eq!(m.last_state(), HealthState::Running);
}

#[test]
fn in_flight_poll_may_still_fire() {
    let mut m = HealthMonitor::new();
    assert!(m.continue_polling(false));
    // shutdown is requested while this poll is in flight
    assert_eq!(m.observe(&sample("ok", false)), Some(HealthState::Waiting));
    assert!(!m.continue_polling(true));
}
