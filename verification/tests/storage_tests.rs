use overpass::boc::BOC;
use overpass::errors::{SystemError, SystemErrorType};
use overpass::storage_manager::StorageAndRetrievalManager;

fn boc_with(hash: [u8; 32], cell: u8) -> BOC {
    let mut b = BOC::new();
    b.set_cells(vec![vec![cell; 3]]);
    b.set_hash(hash);
    b
}

#[test]
fn stored_data_reads_back() {
    let mut m = StorageAndRetrievalManager::new();
    m.store_data(boc_with([1u8; 32], 9), [2u8; 32], vec![4, 5], Ok(true)).unwrap();
    let b = m.retrieve_data(&[1u8; 32]).unwrap();
    assert_eq!(b.cells, vec![vec![9u8; 3]]);
    assert_eq!(m.retrieve_proof(&[2u8; 32]).unwrap(), vec![4, 5]);
    let metrics = m.get_metrics();
    assert_eq!(metrics.store_boc, 1);
    assert_eq!(metrics.store_proof, 1);
    assert_eq!(metrics.retrieve_boc, 1);
    assert_eq!(metrics.retrieve_proof, 1);
    assert_eq!(metrics.verification_count, 1);
    assert_eq!(metrics.verification_success, 1);
}

#[test]
fn missing_and_disabled() {
    let mut m = StorageAndRetrievalManager::new();
    assert_eq!(m.retrieve_data(&[1u8; 32]).unwrap_err().error_type, SystemErrorType::StorageError);
    m.set_retrieve_boc(false);
    assert_eq!(m.retrieve_data(&[1u8; 32]).unwrap_err().error_type, SystemErrorType::OperationDisabled);
    m.set_store_boc(false);
    m.set_store_proof(false);
    let e = m.store_data(BOC::new(), [0u8; 32], vec![], Ok(true)).unwrap_err();
    assert_eq!(e.error_type, SystemErrorType::OperationDisabled);
}

#[test]
fn failed_check_stops_the_store() {
    let mut m = StorageAndRetrievalManager::new();
    let bad = SystemError::new(SystemErrorType::VerificationError, "bad proof");
    assert!(m.store_data(boc_with([1u8; 32], 1), [2u8; 32], vec![1], Err(bad)).is_err());
    assert!(m.retrieve_data(&[1u8; 32]).is_err());
    assert_eq!(m.get_metrics().verification_failure, 1);
    m.store_data(boc_with([1u8; 32], 1), [2u8; 32], vec![1], Ok(false)).unwrap();
    assert!(m.retrieve_data(&[1u8; 32]).is_ok());
    m.set_verify_proof(false);
    assert_eq!(m.verify_proof(Ok(true)).unwrap_err().error_type, SystemErrorType::OperationDisabled);
}

#[test]
fn unhashed_bag_is_stored_under_zero_id() {
    let mut m = StorageAndRetrievalManager::new();
    m.set_store_proof(false);
    m.store_data(BOC::new(), [2u8; 32], vec![], Ok(true)).unwrap();
    assert!(m.retrieve_data(&[0u8; 32]).is_ok());
    assert!(m.retrieve_proof(&[2u8; 32]).is_err());
}
