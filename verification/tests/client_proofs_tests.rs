use overpass::btc::Tx;
use overpass::channel_state::{BitcoinChannelState, HTLCState, HTLCStatus};
use overpass::client_proofs::{BitcoinProofGenerator, BitcoinProofType, ProofError};
use overpass::tx_builder::{BitcoinTransaction, TransactionMetadata, TransactionStatus, TransactionType};
use sha2::Digest;

fn create_test_state(balance: u64, _sequence: u64) -> BitcoinChannelState {
    BitcoinChannelState::new([0u8; 32], balance, 100_000)
}

fn empty_transaction() -> BitcoinTransaction {
    BitcoinTransaction {
        tx_data: Tx { version: 2, lock_time: 0, input: vec![], output: vec![] },
        signatures: vec![],
        metadata: TransactionMetadata {
            tx_type: TransactionType::StateUpdate,
            channel_id: [0u8; 32],
            sequence: 0,
            block_height: 0,
            confirmation_height: None,
            confirmation_hash: None,
            related_txids: vec![],
            fee: 0,
            status: TransactionStatus::Created,
        },
        proof_bundle: None,
    }
}

#[test]
fn test_invalid_state_transition() {
    let mut generator = BitcoinProofGenerator::new().unwrap();
    let old_state = create_test_state(1_000_000, 0);
    let invalid_state = create_test_state(1_100_000, 1);
    let transaction = empty_transaction();
    let result = generator.generate_state_proof(&old_state, &invalid_state, &transaction, vec![]);
    assert!(matches!(result, Err(ProofError::InvalidState)));
}

#[test]
fn test_invalid_htlc_state() {
    let mut generator = BitcoinProofGenerator::new().unwrap();
    let channel_state = create_test_state(1_000_000, 0);
    let invalid_htlc_state = HTLCState {
        status: HTLCStatus::Pending,
        amount: 0,
        timelock: 144,
        preimage_hash: Some([0u8; 32]),
        preimage: Some([0u8; 32]),
        recipient_pubkey: None,
        refund_pubkey: None,
        signature: None,
        execution_txid: None,
    };
    let result = generator.generate_htlc_proof(&channel_state, &invalid_htlc_state, Some([0u8; 32]), vec![]);
    assert!(matches!(result, Err(ProofError::InvalidState)));
}

#[test]
fn state_proof_and_single_use_nullifier() {
    let mut generator = BitcoinProofGenerator::new().unwrap();
    let old_state = create_test_state(1_000_000, 0);
    let mut new_state = create_test_state(900_000, 1);
    new_state.sequence = 1;
    let mut transaction = empty_transaction();
    transaction.metadata.related_txids = vec![[4u8; 32]];
    let bundle = generator.generate_state_proof(&old_state, &new_state, &transaction, vec![1, 2, 3]).unwrap();
    assert_eq!(bundle.metadata.proof_type, BitcoinProofType::StateTransition);
    assert_eq!(bundle.proof.public_inputs, vec![1_000_000, 900_000, 1]);
    assert_eq!(bundle.proof.proof_data, vec![1, 2, 3]);
    assert_eq!(bundle.proof.funding_txid, [4u8; 32]);
    assert_eq!(bundle.metadata.height_bounds, (100_000, 100_006));
    let mut data = vec![0u8; 32];
    data.extend_from_slice(&1u64.to_le_bytes());
    data.extend_from_slice(&100_000u32.to_le_bytes());
    let expected: [u8; 32] = sha2::Sha256::digest(&data).into();
    assert_eq!(bundle.proof.nullifier, expected);
    assert_eq!(bundle.metadata.commitment_nullifier, expected);
    let again = generator.generate_state_proof(&old_state, &new_state, &transaction, vec![1, 2, 3]);
    assert!(matches!(again, Err(ProofError::InvalidNullifier)));
}

#[test]
fn htlc_proof_for_future_timelock() {
    let mut generator = BitcoinProofGenerator::new().unwrap();
    let channel_state = create_test_state(1_000_000, 0);
    let htlc_state = HTLCState {
        status: HTLCStatus::Pending,
        amount: 500_000,
        timelock: 100_144,
        preimage_hash: Some([5u8; 32]),
        preimage: None,
        recipient_pubkey: None,
        refund_pubkey: None,
        signature: None,
        execution_txid: None,
    };
    let bundle = generator.generate_htlc_proof(&channel_state, &htlc_state, None, vec![9]).unwrap();
    assert_eq!(bundle.proof.public_inputs[0], htlc_state.amount);
    assert_eq!(bundle.proof.public_inputs[1], htlc_state.timelock as u64);
    assert_eq!(bundle.metadata.height_bounds, (100_000, 200_144));
    let mut data = 500_000u64.to_le_bytes().to_vec();
    data.extend_from_slice(&100_144u32.to_le_bytes());
    data.extend_from_slice(&[5u8; 32]);
    let expected: [u8; 32] = sha2::Sha256::digest(&data).into();
    assert_eq!(bundle.proof.nullifier, expected);
    let again = generator.generate_htlc_proof(&channel_state, &htlc_state, None, vec![9]);
    assert!(matches!(again, Err(ProofError::InvalidNullifier)));
}

#[test]
fn test_proof_generation() {
    let mut generator = BitcoinProofGenerator::new().unwrap();
    let old_state = create_test_state(1_000_000, 0);
    let new_state = create_test_state(900_000, 1);
    let transaction = empty_transaction();
    let result = generator.generate_state_proof(&old_state, &new_state, &transaction, vec![]);
    assert!(result.is_ok());
    let bundle = result.unwrap();
    assert_eq!(bundle.metadata.proof_type, BitcoinProofType::StateTransition);
}

#[test]
fn test_htlc_proof_generation() {
    let mut generator = BitcoinProofGenerator::new().unwrap();
    let channel_state = create_test_state(1_000_000, 0);
    let htlc_state = HTLCState {
        status: HTLCStatus::Pending,
        amount: 500_000,
        timelock: 144,
        preimage_hash: Some([0u8; 32]),
        preimage: Some([0u8; 32]),
        recipient_pubkey: None,
        refund_pubkey: None,
        signature: None,
        execution_txid: None,
    };
    let result = generator.generate_htlc_proof(&channel_state, &htlc_state, Some([0u8; 32]), vec![]);
    assert!(result.is_ok());
    let bundle = result.unwrap();
    assert_eq!(bundle.proof.public_inputs[0], htlc_state.amount);
    assert_eq!(bundle.proof.public_inputs[1], htlc_state.timelock as u64);
}

#[test]
fn test_nullifier_uniqueness() {
    let mut generator = BitcoinProofGenerator::new().unwrap();
    let old_state = create_test_state(1_000_000, 0);
    let new_state = create_test_state(900_000, 1);
    let transaction = empty_transaction();
    let result1 = generator.generate_state_proof(&old_state, &new_state, &transaction, vec![]);
    assert!(result1.is_ok());
    let result2 = generator.generate_state_proof(&old_state, &new_state, &transaction, vec![]);
    assert!(matches!(result2, Err(ProofError::InvalidNullifier)));
}

#[test]
fn sequence_going_back_and_zero_timelock_are_refused() {
    let mut generator = BitcoinProofGenerator::new().unwrap();
    let mut old_state = create_test_state(1_000_000, 0);
    old_state.sequence = 5;
    let mut new_state = create_test_state(900_000, 0);
    new_state.sequence = 4;
    let result = generator.generate_state_proof(&old_state, &new_state, &empty_transaction(), vec![]);
    assert!(matches!(result, Err(ProofError::InvalidState)));
    let htlc_state = HTLCState {
        status: HTLCStatus::Pending,
        amount: 500_000,
        timelock: 0,
        preimage_hash: None,
        preimage: None,
        recipient_pubkey: None,
        refund_pubkey: None,
        signature: None,
        execution_txid: None,
    };
    let result = generator.generate_htlc_proof(&old_state, &htlc_state, None, vec![]);
    assert!(matches!(result, Err(ProofError::InvalidState)));
}
