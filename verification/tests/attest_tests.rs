use overpass::attest::{
    after_failed_attempt, ChallengeDetails, ChallengeManager, ChallengeManagerError, ChallengeStatus, ResponseManager,
    ResponseManagerError, RetryDecision,
};
use overpass::boc::BOC;

#[test]
fn response_manager_refuses_bad_settings() {
    assert!(matches!(ResponseManager::create([0u8; 32], 0, 5000), Err(ResponseManagerError::InvalidThreshold(_))));
    assert!(matches!(ResponseManager::create([0u8; 32], 1000, 999), Err(ResponseManagerError::InvalidInterval(_))));
    assert!(ResponseManager::create([0u8; 32], 1000, 5000).is_ok());
}

#[test]
fn verification_lifecycle() {
    let mut m = ResponseManager::create([0u8; 32], 1000, 5000).unwrap();
    assert!(!m.is_currently_verifying());
    m.start_verification().unwrap();
    assert!(m.is_currently_verifying());
    assert!(matches!(m.start_verification(), Err(ResponseManagerError::VerificationInProgress)));
    m.stop_verification();
    assert!(!m.is_currently_verifying());
}

#[test]
fn rounds_are_counted() {
    let mut m = ResponseManager::create([0u8; 32], 1000, 5000).unwrap();
    m.record_round(true);
    m.record_round(false);
    m.record_round(true);
    let metrics = m.get_metrics();
    assert_eq!(metrics.total_verifications, 3);
    assert_eq!(metrics.successful_verifications, 2);
    assert_eq!(metrics.failed_verifications, 1);
    assert_eq!(metrics.response_threshold, 1000);
    assert_eq!(metrics.response_interval, 5000);
}

#[test]
fn delay_fills_the_interval() {
    let m = ResponseManager::create([0u8; 32], 1, 5000).unwrap();
    assert_eq!(m.next_delay(1200), Some(3800));
    assert_eq!(m.next_delay(5000), None);
    assert_eq!(m.next_delay(7000), None);
}

#[test]
fn retries_back_off_then_give_up() {
    assert_eq!(after_failed_attempt(1), RetryDecision::RetryAfter(2000));
    assert_eq!(after_failed_attempt(2), RetryDecision::RetryAfter(4000));
    assert_eq!(after_failed_attempt(3), RetryDecision::GiveUp);
}

#[test]
fn responses_are_the_32_byte_cells() {
    let m = ResponseManager::create([0u8; 32], 2, 5000).unwrap();
    let mut boc = BOC::new();
    boc.set_cells(vec![vec![7u8; 32], vec![1u8; 5], vec![9u8; 32]]);
    let picked = m.select_responses(&boc).unwrap();
    assert_eq!(picked, vec![[7u8; 32], [9u8; 32]]);

    let mut small = BOC::new();
    small.set_cells(vec![vec![7u8; 32]]);
    assert!(m.select_responses(&small).unwrap().is_empty());
}

fn details(node: u8, start: u64, timeout: u64) -> ChallengeDetails {
    ChallengeDetails {
        node_id: [node; 32],
        data_id: [0u8; 32],
        start_time: start,
        timeout,
        status: ChallengeStatus::Pending,
    }
}

#[test]
fn challenge_manager_refuses_bad_settings() {
    assert!(matches!(ChallengeManager::create(100, 0, 5000), Err(ChallengeManagerError::InvalidThreshold(_))));
    assert!(matches!(ChallengeManager::create(100, 1000, 10), Err(ChallengeManagerError::InvalidInterval(_))));
    let m = ChallengeManager::create(100, 1000, 5000).unwrap();
    assert!(m.get_active_challenges().unwrap().is_empty());
}

#[test]
fn stored_details_read_back() {
    let mut m = ChallengeManager::create(100, 1000, 5000).unwrap();
    m.store_challenge_details(details(1, 10, 50)).unwrap();
    m.store_challenge_details(details(1, 20, 60)).unwrap();
    let d = m.get_challenge_details(&[1u8; 32]).unwrap().unwrap();
    assert_eq!(d.start_time, 20);
    assert!(m.get_challenge_details(&[2u8; 32]).unwrap().is_none());
}

#[test]
fn expired_challenges_complete_and_leave_the_active_list() {
    let mut m = ChallengeManager::create(100, 1000, 5000).unwrap();
    m.store_challenge_details(details(1, 0, 100)).unwrap();
    m.store_challenge_details(details(2, 0, 1000)).unwrap();
    m.add_active_challenge([1u8; 32]);
    m.add_active_challenge([2u8; 32]);
    m.add_active_challenge([1u8; 32]);
    m.check_challenge(500).unwrap();
    assert_eq!(m.get_challenge_details(&[1u8; 32]).unwrap().unwrap().status, ChallengeStatus::Completed);
    assert_eq!(m.get_challenge_details(&[2u8; 32]).unwrap().unwrap().status, ChallengeStatus::Pending);
    assert_eq!(m.get_active_challenges().unwrap(), vec![[2u8; 32], [1u8; 32]]);
}
