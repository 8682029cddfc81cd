use overpass::propagation::{
    min_battery_level, MessagePriority, MessageState, PropagationAction, PropagationError, PropagationTracker,
};

#[test]
fn battery_levels_by_priority() {
    assert_eq!(min_battery_level(MessagePriority::Critical), 5);
    assert_eq!(min_battery_level(MessagePriority::High), 20);
    assert_eq!(min_battery_level(MessagePriority::Medium), 40);
    assert_eq!(min_battery_level(MessagePriority::Low), 60);
}

#[test]
fn message_life_cycle() {
    let mut t = PropagationTracker::new();
    let id = [1u8; 32];
    assert_eq!(t.get_message_state(&id), MessageState::Unknown);
    assert_eq!(t.accept_message(id, MessagePriority::High, 0, 50, 100), Ok(PropagationAction::Propagate));
    assert_eq!(t.get_message_state(&id), MessageState::Propagating);
    assert_eq!(t.accept_message(id, MessagePriority::High, 0, 50, 100), Ok(PropagationAction::AlreadySeen));
    t.record_ack();
    t.finish(id, 2, 1);
    assert_eq!(t.get_message_state(&id), MessageState::Propagated);
    let m = t.get_metrics();
    assert_eq!(m.messages_seen, 1);
    assert_eq!(m.messages_propagated, 1);
    assert_eq!(m.active_propagations, 0);
    assert_eq!(m.successful_peers, 2);
    assert_eq!(m.failed_peers, 1);
}

#[test]
fn low_battery_and_limits() {
    let mut t = PropagationTracker::new();
    assert_eq!(t.accept_message([9u8; 32], MessagePriority::Low, 0, 59, 100), Err(PropagationError::LowBattery));
    assert_eq!(t.get_metrics().battery_rejections, 1);
    for k in 10..20u8 {
        assert_eq!(t.accept_message([k; 32], MessagePriority::Critical, 0, 5, 100), Ok(PropagationAction::Propagate));
    }
    assert_eq!(t.accept_message([100u8; 32], MessagePriority::Critical, 0, 100, 100), Err(PropagationError::ResourceLimitReached));
    t.finish([13u8; 32], 0, 4);
    assert_eq!(t.get_message_state(&[13u8; 32]), MessageState::Failed);
    assert_eq!(t.accept_message([101u8; 32], MessagePriority::Critical, 0, 100, 100), Ok(PropagationAction::Propagate));
}

struct Peers {
    reachable: Vec<[u8; 32]>,
    acking: Vec<[u8; 32]>,
}

impl overpass::propagation::NetworkSystem for Peers {
    fn send_message(&self, peer: &[u8; 32], _payload: &[u8]) -> Result<(), overpass::errors::SystemError> {
        if self.reachable.contains(peer) {
            Ok(())
        } else {
            Err(overpass::errors::SystemError::new(overpass::errors::SystemErrorType::NetworkError, "unreachable"))
        }
    }
    fn wait_for_ack(&self, peer: &[u8; 32], _message_id: [u8; 32]) -> Result<(), overpass::errors::SystemError> {
        if self.acking.contains(peer) {
            Ok(())
        } else {
            Err(overpass::errors::SystemError::new(overpass::errors::SystemErrorType::NetworkError, "silent"))
        }
    }
}

#[test]
fn propagation_counts_acknowledged_peers() {
    let mut t = PropagationTracker::new();
    let id = [7u8; 32];
    t.accept_message(id, MessagePriority::High, 0, 50, 100).unwrap();
    let net = Peers { reachable: vec![[1u8; 32], [2u8; 32]], acking: vec![[1u8; 32]] };
    let (ok, failed, took) = t.propagate_to_peers(&net, id, &vec![[1u8; 32], [2u8; 32], [3u8; 32]], b"payload");
    assert_eq!((ok, failed), (1, 2));
    assert_eq!(took, vec![true, false, false]);
    assert_eq!(t.get_message_state(&id), MessageState::Propagated);
    let m = t.get_metrics();
    assert_eq!(m.messages_propagated, 1);
    assert_eq!(m.successful_peers, 1);
    assert_eq!(m.failed_peers, 2);
    let e = t.propagate_to_peer(&net, id, &[2u8; 32], b"x").unwrap_err();
    assert_eq!(e.error_type, overpass::errors::SystemErrorType::NetworkError);
}

#[test]
fn propagation_with_no_taker_fails() {
    let mut t = PropagationTracker::new();
    let id = [8u8; 32];
    t.accept_message(id, MessagePriority::Critical, 0, 50, 100).unwrap();
    let net = Peers { reachable: vec![], acking: vec![] };
    assert_eq!(t.propagate_to_peers(&net, id, &vec![[1u8; 32]], b"p"), (0, 1, vec![false]));
    assert_eq!(t.get_message_state(&id), MessageState::Failed);
}

#[test]
fn propagation_battery_requirements() {
    // A full battery (100 of 100), a low-priority message that takes all of it.
    let mut t = PropagationTracker::new();
    let result = t.accept_message([0u8; 32], MessagePriority::Low, 100, 100, 100);
    assert!(result.is_err());
    assert_eq!(t.get_metrics().battery_rejections, 1);
}

#[test]
fn propagation_message_handling() {
    let mut t = PropagationTracker::new();
    let id = [0u8; 32];
    assert!(t.accept_message(id, MessagePriority::High, 0, 100, 100).is_ok());
    assert_eq!(t.get_message_state(&id), MessageState::Propagating);
}

#[test]
fn propagation_metrics_tracking() {
    let mut t = PropagationTracker::new();
    let _ = t.accept_message([0u8; 32], MessagePriority::Medium, 0, 100, 100);
    assert_eq!(t.get_metrics().messages_seen, 1);
}

#[test]
fn requirement_adds_to_priority_minimum() {
    let mut t = PropagationTracker::new();
    // High needs 20%; with a requirement of 30 the battery must hold 50%.
    assert_eq!(t.accept_message([1u8; 32], MessagePriority::High, 30, 49, 100), Err(PropagationError::LowBattery));
    assert_eq!(t.accept_message([2u8; 32], MessagePriority::High, 30, 50, 100), Ok(PropagationAction::Propagate));
}
