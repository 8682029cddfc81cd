use overpass::battery::{at_least_percent, BatteryChargingSystem, BatteryConfig};
use overpass::errors::SystemErrorType;

#[test]
fn charging_system_scenario() {
    let config = BatteryConfig::default();
    let mut system = BatteryChargingSystem::new(config, 0);
    assert_eq!(system.battery_level(), 100);
    assert!(system.is_optimal());
    assert!(!system.is_suspended());

    system.consume_charge(20, 10).unwrap();
    assert_eq!(system.battery_level(), 80);
    assert!(system.is_high());
    assert!(!system.is_optimal());

    system.update_overlap_score(10);
    system.update_sync_score(5);
    // The first charge, right after creation, is not held back.
    system.charge(20).unwrap();
    // 80 + 1 + 10 * 2 + 5 * 2, capped at 100.
    assert!(system.battery_level() > 80);
    assert_eq!(system.battery_level(), 100);
    // The next one waits out the cooldown.
    assert_eq!(system.charge(500), Err(SystemErrorType::CooldownPeriod));
    assert_eq!(system.charge(1_020), Ok(()));
}

#[test]
fn suspension_scenario() {
    let mut config = BatteryConfig::default();
    config.suspension_threshold = 5;
    let mut system = BatteryChargingSystem::new(config, 0);

    system.consume_charge(95, 100).unwrap();
    assert!(system.is_suspended());
    assert_eq!(system.battery_level(), 5);

    assert_eq!(system.charge(5_000), Err(SystemErrorType::NodeSuspended));
    assert_eq!(system.consume_charge(1, 200), Err(SystemErrorType::NodeSuspended));

    assert!(system.check_suspension(100 + 3_599_999));
    assert!(!system.check_suspension(100 + 3_600_000));
    assert!(!system.is_suspended());
}

#[test]
fn charge_adds_scores_and_caps() {
    let mut system = BatteryChargingSystem::new(BatteryConfig::default(), 0);
    system.consume_charge(50, 1).unwrap();
    system.update_overlap_score(3);
    system.charge(2_000).unwrap();
    assert_eq!(system.battery_level(), 50 + 1 + 6);
    assert_eq!(system.charge(2_500), Err(SystemErrorType::CooldownPeriod));
    system.update_overlap_score(4);
    system.charge(3_000).unwrap();
    // A new overlap score feeds the next charge.
    assert_eq!(system.battery_level(), 57 + 1 + 8);
}

#[test]
fn low_battery_refuses_work() {
    let mut system = BatteryChargingSystem::new(BatteryConfig::default(), 0);
    system.consume_charge(95, 1).unwrap();
    assert_eq!(system.battery_level(), 5);
    assert!(!system.is_suspended());
    assert_eq!(system.consume_charge(1, 2), Err(SystemErrorType::InsufficientCharge));
    assert_eq!(system.battery_level(), 5);
}

#[test]
fn draining_to_zero_suspends() {
    let mut system = BatteryChargingSystem::new(BatteryConfig::default(), 0);
    system.consume_charge(500, 9).unwrap();
    assert_eq!(system.battery_level(), 0);
    assert!(system.is_suspended());
}

#[test]
fn percentage_thresholds_in_integers() {
    assert!(at_least_percent(98, 100, 98));
    assert!(!at_least_percent(97, 100, 98));
    assert!(at_least_percent(49, 50, 98));
    assert!(at_least_percent(1, 0, 98));
    assert!(!at_least_percent(0, 0, 98));
}
