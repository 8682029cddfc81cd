use overpass::epoch::{Epoch, EpochStatus};

#[test]
fn test_start_new_epoch() {
    let epoch = Epoch::start_new(1);
    assert_eq!(epoch.epoch_number, 1);
    assert!(epoch.is_active());
    assert_eq!(epoch.end_time, 0);
}

#[test]
fn test_end_epoch() {
    let mut epoch = Epoch::start_new(1);
    assert!(epoch.end_epoch().is_ok());
    assert!(epoch.is_completed());
    assert!(epoch.end_time > 0);
    assert!(epoch.end_epoch().is_err());
}

#[test]
fn test_duration() {
    let mut epoch = Epoch::start_new(1);
    assert_eq!(epoch.duration(), None);
    epoch.end_epoch().unwrap();
    assert!(epoch.duration().unwrap() >= 0);
}

#[test]
fn test_new_validation() {
    assert!(Epoch::new(1, 100, 50, EpochStatus::Completed).is_err());
    assert!(Epoch::new(1, 100, 0, EpochStatus::Completed).is_err());
    assert!(Epoch::new(1, 100, 150, EpochStatus::Active).is_err());
    assert!(Epoch::new(1, 100, 0, EpochStatus::Active).is_ok());
    assert!(Epoch::new(1, 100, 150, EpochStatus::Completed).is_ok());
}

#[test]
fn epoch_end_at_given_time_gives_exact_duration() {
    let mut epoch = Epoch::start_new_at(7, 1_000);
    assert_eq!(epoch.start_time, 1_000);
    assert!(epoch.end_epoch_at(1_250).is_ok());
    assert_eq!(epoch.end_time, 1_250);
    assert_eq!(epoch.duration(), Some(250));
    assert!(epoch.end_epoch_at(2_000).is_err());
    assert_eq!(epoch.end_time, 1_250);
}

#[test]
fn epoch_duration_floors_at_zero() {
    let mut epoch = Epoch::start_new_at(1, 500);
    epoch.end_epoch_at(100).unwrap();
    assert_eq!(epoch.duration(), Some(0));
}
