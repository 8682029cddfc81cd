use overpass::consistency::{ConsistencyValidator, VerifyProof};
use overpass::errors::{SystemError, SystemErrorType};
use overpass::node_types::StateType;
use overpass::replication::{collect_proof_nodes, insert_merkle_node, MerkleNode, StateManager};
use sha2::{Digest, Sha256};

fn digest(bytes: &[u8]) -> [u8; 32] {
    Sha256::digest(bytes).into()
}

#[test]
fn recorded_states_verify_with_their_level() {
    let mut m = StateManager::new();
    let wallet = m.update_wallet_state([1u8; 32], &vec![1, 2, 3], vec![[0u8; 32]]).unwrap();
    let inter = m.update_intermediate_state([2u8; 32], &vec![4, 5]).unwrap();
    let root = m.update_root_state(&vec![6]).unwrap();
    assert_eq!(wallet, digest(&[1, 2, 3]));
    assert!(m.verify_state(wallet));
    assert_eq!(m.get_state_type(wallet), Some(StateType::Wallet));
    assert_eq!(m.get_state_type(inter), Some(StateType::Intermediate));
    assert_eq!(m.get_state_type(root), Some(StateType::Root));
    assert!(!m.verify_state([9u8; 32]));
    let metrics = m.get_metrics();
    assert_eq!(metrics.total_states, 3);
    assert_eq!(metrics.wallet_states, 1);
    assert_eq!(metrics.intermediate_states, 1);
    assert_eq!(metrics.merkle_updates, 1);
}

#[test]
fn proofs_by_level() {
    let mut m = StateManager::new();
    let root = m.update_root_state(&vec![6]).unwrap();
    assert_eq!(m.generate_proof(root).unwrap(), vec![root]);
    let inter = m.update_intermediate_state([2u8; 32], &vec![4, 5]).unwrap();
    assert_eq!(m.generate_proof(inter).unwrap(), vec![inter]);
    let wallet = m.update_wallet_state([1u8; 32], &vec![1], vec![[0u8; 32]]).unwrap();
    let e = m.generate_proof(wallet).unwrap_err();
    assert_eq!(e.error_type, SystemErrorType::InvalidInput);
    let h = digest(&[7]);
    let w2 = m.update_wallet_state([3u8; 32], &vec![7], vec![[5u8; 32], h]).unwrap();
    assert_eq!(m.generate_proof(w2).unwrap(), vec![[5u8; 32], h]);
    assert!(m.generate_proof([8u8; 32]).is_err());
}

#[test]
fn current_state_is_the_root_bytes() {
    let mut m = StateManager::new();
    assert_eq!(m.get_current_state().unwrap_err().error_type, SystemErrorType::InvalidState);
    m.update_root_state(&vec![1, 2, 3]).unwrap();
    assert_eq!(m.get_current_state().unwrap(), vec![1, 2, 3]);
    assert_eq!(m.compute_state_hash(&[1, 2, 3]).unwrap(), digest(&[1, 2, 3]));
}

#[test]
fn leaf_follows_path_bits() {
    let mut tree = MerkleNode::empty();
    let mut path = [0u8; 32];
    path[0] = 0b1000_0000;
    insert_merkle_node(&mut tree, &path, 0, MerkleNode::leaf([1u8; 32]));
    assert_eq!(tree.right.as_ref().unwrap().hash, Some([1u8; 32]));
    assert!(tree.left.is_none());
    insert_merkle_node(&mut tree, &path, 0, MerkleNode::leaf([2u8; 32]));
    assert_eq!(tree.right.as_ref().unwrap().left.as_ref().unwrap().hash, Some([2u8; 32]));
}

#[test]
fn proof_path_climbs_to_the_root() {
    let mut tree = MerkleNode::leaf([9u8; 32]);
    insert_merkle_node(&mut tree, &[0u8; 32], 0, MerkleNode::leaf([1u8; 32]));
    let mut proof = vec![[4u8; 32]];
    assert!(collect_proof_nodes(&tree, &[1u8; 32], &mut proof).unwrap());
    assert_eq!(proof, vec![[4u8; 32], [1u8; 32], [9u8; 32]]);
    let mut none = Vec::new();
    assert!(!collect_proof_nodes(&tree, &[3u8; 32], &mut none).unwrap());
    assert!(none.is_empty());
}

struct Answers(Result<bool, SystemError>);

impl VerifyProof for Answers {
    fn verify_proof(&self, _proof: &[u8], _public_inputs: &Vec<Vec<u8>>) -> Result<bool, SystemError> {
        self.0.clone()
    }
}

#[test]
fn test_consistency_validation() {
    let mut states = StateManager::new();
    let state = vec![1u8, 2];
    let hash = states.update_root_state(&state).unwrap();
    let mut validator = ConsistencyValidator::new();
    let ok = Answers(Ok(true));
    assert!(validator.validate_consistency(&states, &ok, hash, &[], &state).unwrap());
    assert_eq!(validator.get_metrics().total_consistency_checks, 1);
}

#[test]
fn test_invalid_consistency() {
    let states = StateManager::new();
    let mut validator = ConsistencyValidator::new();
    validator.set_force_verification_error(true);
    let ok = Answers(Ok(true));
    let r = validator.verify_consistency(&states, &ok, &vec![1u8]);
    assert!(r.is_err());
    assert_eq!(validator.get_metrics().failed_consistency_checks, 0);
}

#[test]
fn test_verification_state() {
    let validator = ConsistencyValidator::new();
    let state = validator.get_state().unwrap();
    assert!(state.is_valid);
    assert_eq!(state.total_checks, 0);
}

#[test]
fn consistency_outcomes_are_counted() {
    let mut states = StateManager::new();
    let state = vec![3u8];
    let hash = states.update_root_state(&state).unwrap();
    let mut v = ConsistencyValidator::new();
    let e = v.validate_consistency(&states, &Answers(Ok(true)), [0u8; 32], &[], &state).unwrap_err();
    assert_eq!(e.error_type, SystemErrorType::InvalidState);
    assert!(!v.validate_consistency(&states, &Answers(Ok(true)), hash, &[], &vec![4u8]).unwrap());
    assert_eq!(v.get_metrics().state_mismatches, 2);
    assert!(!v.validate_consistency(&states, &Answers(Ok(false)), hash, &[], &state).unwrap());
    let failed = SystemError::new(SystemErrorType::VerificationError, "bad");
    assert!(v.validate_consistency(&states, &Answers(Err(failed)), hash, &[], &state).is_err());
    assert_eq!(v.get_metrics().proof_failures, 2);
    assert!(v.verify_consistency(&states, &Answers(Ok(true)), &state).unwrap());
    assert_eq!(v.get_metrics().total_consistency_checks, 1);
}
