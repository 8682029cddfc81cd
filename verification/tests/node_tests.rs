use overpass::battery::{BatteryChargingSystem, BatteryConfig};
use overpass::byte_array::ByteArray32;
use overpass::errors::SystemErrorType;
use overpass::monitor::{BatteryMonitor, MonitoringConfig};
use overpass::state_converter::{BitcoinLockState, BitcoinStateConverter, OverpassBitcoinState};
use overpass::user::{ChannelState, User};
use sha2::{Digest, Sha256};

#[test]
fn test_monitor_start_stop() {
    let mut monitor = BatteryMonitor::new(MonitoringConfig::default());
    monitor.start_monitoring().unwrap();
    assert!(monitor.is_monitoring());
    monitor.stop_monitoring();
    assert!(!monitor.is_monitoring());
}

#[test]
fn test_operation_management() {
    let battery = BatteryChargingSystem::new(BatteryConfig::default(), 0);
    let mut monitor = BatteryMonitor::new(MonitoringConfig::default());
    monitor.request_operation(&battery).unwrap();
    monitor.complete_operation(true);
    let metrics = monitor.get_metrics();
    assert_eq!(metrics.successful_operations, 1);
    assert_eq!(metrics.failed_operations, 0);
}

#[test]
fn test_low_battery_behavior() {
    let mut battery = BatteryChargingSystem::new(BatteryConfig::default(), 0);
    battery.consume_charge(90, 1).unwrap();
    let mut monitor = BatteryMonitor::new(MonitoringConfig::default());
    for _ in 0..5 {
        monitor.request_operation(&battery).unwrap();
    }
    let e = monitor.request_operation(&battery).unwrap_err();
    assert_eq!(e.error_type, SystemErrorType::BatteryError);
}

#[test]
fn low_battery_alerts_and_charging_decision() {
    let mut battery = BatteryChargingSystem::new(BatteryConfig::default(), 0);
    let mut monitor = BatteryMonitor::new(MonitoringConfig::default());
    assert!(!monitor.check_battery_status(&battery));
    assert_eq!(monitor.get_metrics().failed_operations, 0);
    battery.consume_charge(95, 1).unwrap();
    monitor.set_connected_peers(3);
    assert!(monitor.check_battery_status(&battery));
    assert_eq!(monitor.get_metrics().failed_operations, 1);
    monitor.update_metrics(&battery, 50);
    assert_eq!(monitor.get_metrics().time_since_charge, 50);
}

#[test]
fn user_channels_and_state() {
    let mut user = User::new("alice".to_string());
    user.add_channel(&[1u8; 32]);
    user.add_channel(&[1u8; 5]);
    assert_eq!(user.get_channel_count(), 1);
    assert_eq!(user.get_channel_ids(), vec![vec![1u8; 32]]);
    assert_eq!(user.get_channel_name(&[0xab, 0x01]), "Channel-ab01");
    assert_eq!(user.get_channel_names(), vec![format!("Channel-{}", "01".repeat(32))]);
    assert_eq!(user.get_channel_balance(&[1u8; 32]), 32000);
    assert_eq!(user.get_channel_transaction_count(&[1u8; 32]), 32);
    assert_eq!(user.get_channel_balance(&[2u8; 32]), 0);
    assert_eq!(user.get_channel_balance(&[1u8; 3]), 0);
    assert_eq!(user.get_channel_state(&[1u8; 32]), ChannelState { balance: 32000, transaction_count: 32 });
    assert_eq!(user.get_channel_state_string(&[1u8; 32]), "Balance: 32000, Transactions: 32");
    assert_eq!(user.name(), "alice");
    let other = User::new_with_channels("bob".to_string(), vec![[255u8; 32]]);
    assert_eq!(other.query_blockchain_state(&[255u8; 32]).transaction_count, 60);
}

#[test]
fn byte_array_round_trip() {
    assert!(ByteArray32::new(&[1u8; 31]).is_err());
    let a = ByteArray32::new(&[0xcdu8; 32]).unwrap();
    assert_eq!(a.to_array(), vec![0xcdu8; 32]);
    let text = a.to_string();
    assert_eq!(text, "cd".repeat(32));
    assert_eq!(ByteArray32::from_string(&text).unwrap().0, [0xcdu8; 32]);
    assert!(ByteArray32::from_string("zz").is_err());
    assert!(ByteArray32::from_string("abcd").is_err());
}

fn lock() -> BitcoinLockState {
    BitcoinLockState {
        lock_amount: 100000000,
        lock_script_hash: [0u8; 32],
        lock_height: 700000,
        pubkey_hash: [1u8; 20],
        sequence: 0,
    }
}

#[test]
fn test_lock_to_state_conversion() {
    let converter = BitcoinStateConverter::new();
    let state = converter.convert_lock_to_state(&lock(), [3u8; 32], vec![]).unwrap();
    assert_eq!(state.current_balance, 100000000);
    let mut data = vec![0u8; 32];
    data.extend_from_slice(&700000u32.to_le_bytes());
    data.extend_from_slice(&[1u8; 20]);
    let once: [u8; 32] = Sha256::digest(&data).into();
    let twice: [u8; 32] = Sha256::digest(once).into();
    assert_eq!(state.channel_id, twice);
    let initial = converter.initial_state_data(&lock());
    assert_eq!(&initial[0..8], &100000000u64.to_le_bytes());
    assert_eq!(initial.len(), 60);
}

fn state(root: u8, balance: u64, sequence: u64) -> OverpassBitcoinState {
    OverpassBitcoinState {
        channel_id: [0u8; 32],
        state_root: [root; 32],
        current_balance: balance,
        nonce: sequence,
        sequence,
        pubkey_hash: [1u8; 20],
        merkle_proof: vec![],
    }
}

#[test]
fn test_state_transition_verification() {
    let converter = BitcoinStateConverter::new();
    assert!(converter.verify_state_constraints(&state(1, 100000000, 0), &state(2, 90000000, 1)).unwrap());
    assert!(!converter.verify_state_constraints(&state(1, 100000000, 0), &state(2, 90000000, 2)).unwrap());
    let data = converter.verification_data(&state(1, 5, 0), &state(2, 7, 1));
    assert_eq!(&data[64..72], &7u64.to_le_bytes());
}

#[test]
fn test_settlement_preparation() {
    let converter = BitcoinStateConverter::new();
    let final_state = state(1, 100000000, 10);
    let lock_state = converter.prepare_settlement(&final_state, &[1u8; 32]).unwrap();
    assert_eq!(lock_state.lock_amount, final_state.current_balance);
    assert_eq!(lock_state.pubkey_hash, final_state.pubkey_hash);
    let e = converter.prepare_settlement(&final_state, &[2u8; 32]).unwrap_err();
    assert_eq!(e.error_type, SystemErrorType::InvalidState);
}
