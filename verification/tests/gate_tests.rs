use shahmaat::admission::AdmissionController;
use shahmaat::heartbeat::{HeartbeatMonitor, TickAction};
use shahmaat::negotiate::{negotiate, protocol_version_str};

#[test]
fn admission_grants_up_to_capacity() {
    let mut gate = AdmissionController::new(3);
    assert!(gate.try_acquire());
    assert!(gate.try_acquire());
    assert!(gate.try_acquire());
    assert!(!gate.try_acquire());
    assert!(!gate.try_acquire());
}

#[test]
fn admission_release_reopens_the_gate() {
    let mut gate = AdmissionController::new(1);
    assert!(gate.try_acquire());
    assert!(!gate.try_acquire());
    gate.release();
    assert!(gate.try_acquire());
    assert!(!gate.try_acquire());
}

#[test]
fn heartbeat_terminates_after_one_missed_probe() {
    let mut monitor = HeartbeatMonitor::new();
    assert_eq!(monitor.on_tick(), TickAction::SendProbe);
    // No response arrives before the next tick.
    assert_eq!(monitor.on_tick(), TickAction::Terminate);
}

#[test]
fn heartbeat_continues_while_probes_are_answered() {
    let mut monitor = HeartbeatMonitor::new();
    for _ in 0..100 {
        assert_eq!(monitor.on_tick(), TickAction::SendProbe);
        monitor.on_response();
    }
    assert_eq!(monitor.probes_sent, 100);
    assert_eq!(monitor.probes_acked, 100);
}

#[test]
fn heartbeat_unsolicited_response_counts_as_mismatch() {
    let mut monitor = HeartbeatMonitor::new();
    monitor.on_response();
    assert_eq!(monitor.on_tick(), TickAction::Terminate);
}

#[test]
fn negotiate_accepts_only_the_exact_version() {
    let version = protocol_version_str().to_string();
    assert_eq!(negotiate(&vec![version.clone()]), Some(0));
    assert_eq!(negotiate(&vec!["chat".to_string(), version.clone()]), Some(1));
    assert_eq!(negotiate(&Vec::new()), None);
    assert_eq!(negotiate(&vec!["chat".to_string()]), None);
    assert_eq!(negotiate(&vec!["shahmaat_protocol_0.1.2".to_string()]), None);
    assert_eq!(negotiate(&vec!["shahmaat_protocol_0.1".to_string()]), None);
    assert_eq!(
        negotiate(&vec!["SHAHMAAT_PROTOCOL_0.1.1".to_string()]),
        None
    );
}

#[test]
fn negotiate_echoes_the_first_match() {
    let version = protocol_version_str().to_string();
    let offered = vec!["a".to_string(), version.clone(), version.clone()];
    assert_eq!(negotiate(&offered), Some(1));
}
