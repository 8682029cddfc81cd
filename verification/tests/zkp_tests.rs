use overpass::bitcoin_types::{BitcoinError, BitcoinNetwork};
use overpass::currency::{DispatchError, NativeCurrency};
use overpass::zkp_manager::BitcoinZkpManager;
use overpass::zkp_slice::{HeightBounds, ProofMetadata, ProofType, ZkProofBoc, ZkProofManager, ZkProofSlice};

fn keccak(data: &[u8]) -> [u8; 32] {
    let mut out = [0u8; 32];
    keccak_hash::keccak_256(data, &mut out);
    out
}

fn metadata(t: ProofType) -> ProofMetadata {
    ProofMetadata { version: 1, proof_type: t, height_bounds: HeightBounds { min_height: 10, max_height: 0x0102_0304 } }
}

#[test]
fn proof_type_bytes() {
    assert_eq!(ProofType::try_from_u8(1).unwrap(), ProofType::Deposit);
    assert_eq!(ProofType::try_from_u8(3).unwrap(), ProofType::Transfer);
    assert!(ProofType::try_from_u8(0).is_err());
    assert!(ProofType::try_from_u8(4).is_err());
    assert_eq!(ProofType::Withdrawal.code(), 2);
}

#[test]
fn boc_serializes_end_to_end() {
    let m = ZkProofManager::new();
    let boc = ZkProofBoc { proof_data: vec![1, 2], vk_hash: [3u8; 32], public_inputs: vec![4], auxiliary_data: vec![5, 6] };
    let mut expected = vec![1u8, 2];
    expected.extend_from_slice(&[3u8; 32]);
    expected.extend_from_slice(&[4, 5, 6]);
    assert_eq!(m.serialize(&boc), expected);
    assert_eq!(m.calculate_hash(&[]), keccak(&[]));
}

#[test]
fn slice_hashes_the_encoded_amount() {
    let m = ZkProofManager::new();
    let encoded = 100u64.to_le_bytes().to_vec();
    let slice = m.create_proof_slice(&encoded, metadata(ProofType::Deposit)).unwrap();
    let mut data = encoded.clone();
    data.extend_from_slice(&[0u8; 32]);
    assert_eq!(slice.boc_hash, keccak(&data));
    assert_eq!(slice.metadata, metadata(ProofType::Deposit));
}

#[test]
fn op_return_layout() {
    let slice = ZkProofSlice { boc_hash: [7u8; 32], metadata: metadata(ProofType::Transfer) };
    let out = slice.to_op_return();
    assert_eq!(&out[0..8], b"ZKBRIDGE");
    assert_eq!(&out[8..40], &[7u8; 32]);
    assert_eq!(out[40], 1);
    assert_eq!(out[41], 3);
    assert_eq!(&out[42..46], &[10, 0, 0, 0]);
    assert_eq!(&out[46..50], &[4, 3, 2, 1]);
    assert_eq!(out.len(), 50);
}

struct Ledger;

impl NativeCurrency for Ledger {
    fn deposit_creating(_who: u64, _amount: u128) {}
    fn withdraw(_who: u64, _amount: u128) -> Result<(), DispatchError> {
        Ok(())
    }
    fn can_slash(_who: u64, _amount: u128) -> bool {
        true
    }
    fn slash(_who: u64, amount: u128) -> u128 {
        amount
    }
    fn total_balance(who: u64) -> u128 {
        if who == 1 {
            1000
        } else {
            50
        }
    }
    fn transfer(_from: u64, _to: u64, _amount: u128) -> Result<(), DispatchError> {
        Ok(())
    }
}

fn expected_hash(proof: &[u8], label: &[u8], inputs: &[u128]) -> [u8; 32] {
    let mut data = proof.to_vec();
    data.extend_from_slice(&keccak(label));
    for x in inputs {
        data.extend_from_slice(&x.to_le_bytes());
    }
    keccak(&data)
}

#[test]
fn test_deposit_proof_generation() {
    let m = BitcoinZkpManager::new(BitcoinNetwork::Bitcoin);
    let proof = vec![9u8, 9];
    let (result, slice) = m.deposit_with_proof::<Ledger>(1, 100, metadata(ProofType::Deposit), &proof).unwrap();
    assert!(result.is_ok());
    assert_eq!(slice.boc_hash, expected_hash(&proof, b"DEPOSIT", &[1000, 1100, 100]));
    assert_eq!(slice.metadata, metadata(ProofType::Deposit));
}

#[test]
fn test_transfer_proof_generation() {
    let m = BitcoinZkpManager::new(BitcoinNetwork::Bitcoin);
    let proof = vec![1u8];
    let (result, slice) = m.transfer_with_proof::<Ledger>(1, 2, 100, metadata(ProofType::Transfer), &proof).unwrap();
    assert!(result.is_ok());
    assert_eq!(slice.boc_hash, expected_hash(&proof, b"TRANSFER", &[1000, 50, 100]));
    assert!(matches!(
        m.transfer_with_proof::<Ledger>(2, 1, 100, metadata(ProofType::Transfer), &proof),
        Err(BitcoinError::InsufficientBalance(_))
    ));
}

#[test]
fn withdrawal_needs_balance_and_main_network() {
    let m = BitcoinZkpManager::new(BitcoinNetwork::Bitcoin);
    let proof = vec![2u8];
    let (result, slice) = m.withdraw_with_proof::<Ledger>(1, 400, metadata(ProofType::Withdrawal), &proof).unwrap();
    assert!(result.is_ok());
    assert_eq!(slice.boc_hash, expected_hash(&proof, b"WITHDRAWAL", &[1000, 600, 400]));
    assert!(matches!(
        m.withdraw_with_proof::<Ledger>(1, 4000, metadata(ProofType::Withdrawal), &proof),
        Err(BitcoinError::InsufficientBalance(_))
    ));
    let test_net = BitcoinZkpManager::new(BitcoinNetwork::BitcoinTestnet);
    let (d, _) = test_net.deposit_with_proof::<Ledger>(1, 5, metadata(ProofType::Deposit), &proof).unwrap();
    assert_eq!(d, Err(DispatchError::UnsupportedCurrency));
}

#[test]
fn oversized_amounts_are_refused() {
    let m = BitcoinZkpManager::new(BitcoinNetwork::Bitcoin);
    let big = (u64::MAX as u128) + 1;
    assert!(matches!(m.deposit_slice(0, big, metadata(ProofType::Deposit), &vec![]), Err(BitcoinError::InvalidTransaction(_))));
    assert!(matches!(m.deposit_slice(u128::MAX, 1, metadata(ProofType::Deposit), &vec![]), Err(BitcoinError::InvalidTransaction(_))));
    assert_eq!(
        m.calculate_verification_key_hash(ProofType::Deposit).ok().unwrap(),
        keccak(b"DEPOSIT")
    );
}

#[test]
fn manager_stamps_metadata() {
    let m = overpass::zkp_manager::BitcoinManager::new(BitcoinNetwork::Bitcoin);
    let (d, slice) = m.process_deposit_with_proof::<Ledger>(1, 10, &vec![]).unwrap();
    assert!(d.is_ok());
    assert_eq!(slice.metadata.proof_type, ProofType::Deposit);
    assert_eq!(slice.metadata.height_bounds, HeightBounds { min_height: 0, max_height: 0 });
    let (_, w) = m.process_withdrawal_with_proof::<Ledger>(1, 10, &vec![]).unwrap();
    assert_eq!(w.metadata.height_bounds.max_height, u32::MAX);
    assert!(matches!(
        m.process_withdrawal_with_proof::<Ledger>(2, 1000, &vec![]),
        Err(BitcoinError::ProofVerificationFailed(_))
    ));
}

#[test]
fn currency_manager_by_network() {
    let m = overpass::currency::BitcoinManager::new();
    assert!(m.deposit_bitcoin::<Ledger>(BitcoinNetwork::Bitcoin, 1, 5).is_ok());
    assert_eq!(m.deposit_bitcoin::<Ledger>(BitcoinNetwork::BitcoinSignet, 1, 5), Err(DispatchError::UnsupportedCurrency));
    assert_eq!(m.slash_bitcoin::<Ledger>(BitcoinNetwork::Bitcoin, 1, 5), 5);
    assert!(!m.can_slash_bitcoin::<Ledger>(BitcoinNetwork::BitcoinRegtest, 1, 5));
    assert_eq!(overpass::currency::BitcoinManager::select_network(2), BitcoinNetwork::BitcoinRegtest);
    assert_eq!(overpass::currency::BitcoinManager::get_balance(1), 0);
}

#[test]
fn bitcoin_zkp_manager_test_proof_verification() {
    let manager = BitcoinZkpManager::new(BitcoinNetwork::Bitcoin);
    let metadata = ProofMetadata { version: 1, proof_type: ProofType::Transfer, height_bounds: HeightBounds { min_height: 0, max_height: 0 } };
    let proof_slice = ZkProofSlice { boc_hash: [0u8; 32], metadata };
    // The proof system accepts the slice's hash.
    let result = manager.verify_proof(&proof_slice, &metadata, Ok(true));
    assert!(result.is_ok());
}

#[test]
fn proof_verification_checks_metadata_first() {
    let manager = BitcoinZkpManager::new(BitcoinNetwork::Bitcoin);
    let metadata = ProofMetadata { version: 1, proof_type: ProofType::Transfer, height_bounds: HeightBounds { min_height: 0, max_height: 0 } };
    let slice = ZkProofSlice { boc_hash: [0u8; 32], metadata };
    let other = ProofMetadata { version: 2, ..metadata };
    // Other metadata: false whatever the proof system says.
    assert!(matches!(manager.verify_proof(&slice, &other, Ok(true)), Ok(false)));
    assert!(matches!(
        manager.verify_proof(&slice, &other, Err(BitcoinError::ProofVerificationFailed("x".to_string()))),
        Ok(false)
    ));
    // Same metadata: the proof system's answer.
    assert!(matches!(manager.verify_proof(&slice, &metadata, Ok(false)), Ok(false)));
    assert!(matches!(
        manager.verify_proof(&slice, &metadata, Err(BitcoinError::ProofVerificationFailed("x".to_string()))),
        Err(BitcoinError::ProofVerificationFailed(_))
    ));
}

#[test]
fn test_deposit_with_proof() {
    let manager = overpass::zkp_manager::BitcoinManager::new(BitcoinNetwork::Bitcoin);
    let account = 1_u64;
    let amount = 100_u128;
    let result = manager.process_deposit_with_proof::<Ledger>(account, amount, &vec![]);
    assert!(result.is_ok());
    let (dispatch_result, proof) = result.unwrap();
    assert!(dispatch_result.is_ok());
    assert!(proof.metadata.proof_type == ProofType::Deposit);
}
