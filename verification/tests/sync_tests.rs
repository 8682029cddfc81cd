use overpass::battery::{BatteryChargingSystem, BatteryConfig};
use overpass::errors::SystemErrorType;
use overpass::node_types::{ChannelState, ContractState};
use overpass::overlap::StorageOverlapManager;
use overpass::peer_sync::{SyncConfig, SynchronizationManager};
use overpass::state_store::{load_latest_state, StoredState};

fn peer(i: u8) -> [u8; 32] {
    [i; 32]
}

#[test]
fn test_sync_lifecycle() {
    let mut m = SynchronizationManager::new(SyncConfig::default());
    assert!(m.start_sync().is_ok());
    assert!(m.is_syncing());
    m.stop_sync();
    assert!(!m.is_syncing());
}

#[test]
fn test_concurrent_syncs_are_capped() {
    let mut m = SynchronizationManager::new(SyncConfig::default());
    for i in 0..3u8 {
        assert!(m.sync_with_peer(&peer(i)).is_ok());
    }
    let e = m.sync_with_peer(&peer(3)).unwrap_err();
    assert_eq!(e.error_type, SystemErrorType::TooManySyncs);
}

#[test]
fn peers_are_chosen_in_order_up_to_the_limit() {
    let mut m = SynchronizationManager::new(SyncConfig::default());
    m.sync_with_peer(&peer(1)).unwrap();
    m.finish_sync(&peer(2), true, 1000);
    let candidates = vec![peer(1), peer(2), peer(3), peer(4), peer(5), peer(6), peer(7)];
    let ok = vec![true, true, false, true, true, true, true];
    assert_eq!(m.select_sync_peers(&candidates, &ok, 3000), vec![peer(4), peer(5), peer(6)]);
    assert_eq!(m.select_sync_peers(&candidates, &ok, 7000), vec![peer(2), peer(4), peer(5)]);
}

#[test]
fn sync_verifies_every_known_state() {
    let mut m = SynchronizationManager::new(SyncConfig::default());
    m.track_state([1u8; 32]);
    m.track_state([2u8; 32]);
    m.track_state([1u8; 32]);
    assert_eq!(m.get_unverified_states(&peer(9)).unwrap(), vec![[1u8; 32], [2u8; 32]]);
    m.execute_sync(&peer(9)).unwrap();
    assert!(m.get_unverified_states(&peer(9)).unwrap().is_empty());
    assert_eq!(m.get_unverified_states(&peer(8)).unwrap().len(), 2);
    assert!(m.verify_state(&[2u8; 32]).is_ok());
    assert_eq!(m.verify_state(&[3u8; 32]).unwrap_err().error_type, SystemErrorType::InvalidInput);
}

#[test]
fn outcomes_are_counted() {
    let mut m = SynchronizationManager::new(SyncConfig::default());
    m.finish_sync(&peer(1), true, 5);
    m.finish_sync(&peer(2), false, 6);
    m.update_metrics();
    let metrics = m.get_metrics();
    assert_eq!(metrics.successful_syncs, 1);
    assert_eq!(metrics.failed_syncs, 1);
    assert_eq!(metrics.total_syncs, 2);
}

#[test]
fn test_battery_requirements() {
    let mut m = SynchronizationManager::new(SyncConfig::default());
    let mut battery = BatteryChargingSystem::new(BatteryConfig::default(), 0);
    battery.consume_charge(90, 1).unwrap();
    assert!(!m.battery_allows_sync(&battery));
    assert!(m.get_metrics().battery_rejections > 0);
    let full = BatteryChargingSystem::new(BatteryConfig::default(), 0);
    assert!(m.battery_allows_sync(&full));
}

#[test]
fn test_state_assignment() {
    let mut m = StorageOverlapManager::new(3);
    m.assign_state([1u8; 32], peer(1)).unwrap();
    assert_eq!(m.shared_states(peer(1), peer(1)), vec![[1u8; 32]]);
}

#[test]
fn test_overlap_calculation() {
    let mut m = StorageOverlapManager::new(3);
    m.assign_state([1u8; 32], peer(1)).unwrap();
    m.assign_state([1u8; 32], peer(2)).unwrap();
    m.assign_state([2u8; 32], peer(2)).unwrap();
    let (shared, total) = m.overlap_counts(peer(1), peer(2)).unwrap();
    assert_eq!((shared, total), (1, 2));
    assert!(shared > 0 && shared < total);
    assert_eq!(m.overlap_counts(peer(1), peer(3)), None);
    assert!(m.under_replicated());
}

#[test]
fn replication_target_met() {
    let mut m = StorageOverlapManager::new(2);
    m.assign_state([1u8; 32], peer(1)).unwrap();
    m.assign_state([1u8; 32], peer(2)).unwrap();
    m.assign_state([1u8; 32], peer(2)).unwrap();
    assert!(!m.under_replicated());
}

fn stored(version: u64, tag: u8) -> StoredState {
    StoredState {
        version,
        root: [tag; 32],
        channels: vec![([tag; 32], ChannelState { state_boc: vec![tag], contract_boc: vec![], nonce: 0 })],
        contracts: vec![([tag; 32], ContractState { code: vec![], state: vec![tag] })],
    }
}

#[test]
fn latest_state_has_the_highest_version() {
    assert!(load_latest_state(vec![]).is_none());
    let latest = load_latest_state(vec![stored(1, 1), stored(5, 2), stored(3, 3), stored(5, 4)]).unwrap();
    assert_eq!(latest.version, 5);
    assert_eq!(latest.root, [4u8; 32]);
}
