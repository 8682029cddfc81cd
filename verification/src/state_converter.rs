use vstd::prelude::*;

use crate::errors::{SystemError, SystemErrorType};
use crate::hashing::{append_bytes, sha256d_digest, spec_sha256d};

verus! {

/// Bitcoin locked for a channel: the amount, the lock script's hash, the
/// block height, the owner's key hash and a sequence number.
#[derive(Clone, Copy, Debug)]
pub struct BitcoinLockState {
    pub lock_amount: u64,
    pub lock_script_hash: [u8; 32],
    pub lock_height: u32,
    pub pubkey_hash: [u8; 20],
    pub sequence: u64,
}

/// The channel state those bitcoin stand for inside Overpass.
#[derive(Clone, Debug)]
pub struct OverpassBitcoinState {
    pub channel_id: [u8; 32],
    pub state_root: [u8; 32],
    pub current_balance: u64,
    pub nonce: u64,
    pub sequence: u64,
    pub pubkey_hash: [u8; 20],
    pub merkle_proof: Vec<u8>,
}

/// The channel id of a lock: the double SHA-256 of the script hash, the
/// height (little-endian) and the key hash.
pub open spec fn spec_channel_id(lock: BitcoinLockState) -> Seq<u8> {
    spec_sha256d(lock.lock_script_hash@ + vstd::bytes::spec_u32_to_le_bytes(lock.lock_height) + lock.pubkey_hash@)
}

/// The first state recorded for a lock: the amount (little-endian), the key
/// hash and an all-zero root.
pub open spec fn spec_initial_state_data(lock: BitcoinLockState) -> Seq<u8> {
    vstd::bytes::spec_u64_to_le_bytes(lock.lock_amount) + lock.pubkey_hash@ + crate::boc::zero_hash()
}

/// Moves bitcoin locks into Overpass channel states and back. The state
/// tree and the proof system it works with are the caller's.
pub struct BitcoinStateConverter {}

impl BitcoinStateConverter {
    /// A converter.
    pub fn new() -> (r: Self) {
        BitcoinStateConverter {  }
    }

    /// The channel id of a lock.
    pub fn generate_channel_id(&self, lock_state: &BitcoinLockState) -> (r: Result<[u8; 32], SystemError>)
        ensures
            r matches Ok(id) && id@ == spec_channel_id(*lock_state),
    {
        let mut data: Vec<u8> = Vec::new();
        append_bytes(&mut data, lock_state.lock_script_hash.as_slice());
        let height = vstd::bytes::u32_to_le_bytes(lock_state.lock_height);
        append_bytes(&mut data, height.as_slice());
        append_bytes(&mut data, lock_state.pubkey_hash.as_slice());
        Ok(sha256d_digest(data.as_slice()))
    }

    /// The first state data recorded in the tree for a lock.
    pub fn initial_state_data(&self, lock_state: &BitcoinLockState) -> (r: Vec<u8>)
        ensures
            r@ == spec_initial_state_data(*lock_state),
    {
        let mut data: Vec<u8> = Vec::new();
        let amount = vstd::bytes::u64_to_le_bytes(lock_state.lock_amount);
        append_bytes(&mut data, amount.as_slice());
        append_bytes(&mut data, lock_state.pubkey_hash.as_slice());
        let zeros = crate::boc::zero_bytes32();
        append_bytes(&mut data, zeros.as_slice());
        data
    }

    /// The Overpass state of a lock, once its initial data is in the tree
    /// with root `state_root` and Merkle proof `merkle_proof`: the lock's
    /// channel id, balance, sequence and key hash, nonce zero.
    pub fn convert_lock_to_state(&self, lock_state: &BitcoinLockState, state_root: [u8; 32], merkle_proof: Vec<u8>) -> (r:
        Result<OverpassBitcoinState, SystemError>)
        ensures
            r matches Ok(s) && s.channel_id@ == spec_channel_id(*lock_state) && s.state_root == state_root
                && s.current_balance == lock_state.lock_amount && s.nonce == 0 && s.sequence == lock_state.sequence
                && s.pubkey_hash == lock_state.pubkey_hash && s.merkle_proof == merkle_proof,
    {
        let channel_id = match self.generate_channel_id(lock_state) {
            Ok(id) => id,
            Err(e) => {
                return Err(e);
            },
        };
        Ok(
            OverpassBitcoinState {
                channel_id,
                state_root,
                current_balance: lock_state.lock_amount,
                nonce: 0,
                sequence: lock_state.sequence,
                pubkey_hash: lock_state.pubkey_hash,
                merkle_proof,
            },
        )
    }

    /// Whether one state may follow another: the same channel and key hash,
    /// and the next sequence number.
    pub fn verify_state_constraints(&self, prev_state: &OverpassBitcoinState, new_state: &OverpassBitcoinState) -> (r:
        Result<bool, SystemError>)
        ensures
            r matches Ok(b) && b == (prev_state.channel_id == new_state.channel_id && new_state.sequence
                == prev_state.sequence + 1 && prev_state.pubkey_hash == new_state.pubkey_hash),
    {
        if !crate::btc::bytes32_eq(&prev_state.channel_id, &new_state.channel_id) {
            return Ok(false);
        }
        if prev_state.sequence == u64::MAX || new_state.sequence != prev_state.sequence + 1 {
            return Ok(false);
        }
        Ok(bytes20_eq(&prev_state.pubkey_hash, &new_state.pubkey_hash))
    }

    /// The bytes a transition proof is checked against: the old root, the
    /// new root and the new balance (little-endian).
    pub fn verification_data(&self, prev_state: &OverpassBitcoinState, new_state: &OverpassBitcoinState) -> (r: Vec<u8>)
        ensures
            r@ == prev_state.state_root@ + new_state.state_root@ + vstd::bytes::spec_u64_to_le_bytes(
                new_state.current_balance,
            ),
    {
        let mut data: Vec<u8> = Vec::new();
        append_bytes(&mut data, prev_state.state_root.as_slice());
        append_bytes(&mut data, new_state.state_root.as_slice());
        let balance = vstd::bytes::u64_to_le_bytes(new_state.current_balance);
        append_bytes(&mut data, balance.as_slice());
        data
    }

    /// The lock that settles a final state on Bitcoin: refused when the
    /// state's root is not the tree's root `tree_root`; otherwise the
    /// balance, key hash and sequence, with script hash and height left zero
    /// for the settlement to fill in.
    pub fn prepare_settlement(&self, final_state: &OverpassBitcoinState, tree_root: &[u8; 32]) -> (r: Result<
        BitcoinLockState,
        SystemError,
    >)
        ensures
            *tree_root != final_state.state_root ==> (r matches Err(e) && e.error_type == SystemErrorType::InvalidState),
            *tree_root == final_state.state_root ==> (r matches Ok(l) && l.lock_amount == final_state.current_balance
                && l.lock_script_hash@ == crate::boc::zero_hash() && l.lock_height == 0 && l.pubkey_hash
                == final_state.pubkey_hash && l.sequence == final_state.sequence),
    {
        if !crate::btc::bytes32_eq(tree_root, &final_state.state_root) {
            return Err(SystemError::new(SystemErrorType::InvalidState, "Invalid final state root"));
        }
        Ok(
            BitcoinLockState {
                lock_amount: final_state.current_balance,
                lock_script_hash: crate::boc::zero_bytes32(),
                lock_height: 0,
                pubkey_hash: final_state.pubkey_hash,
                sequence: final_state.sequence,
            },
        )
    }

    /// The bytes a settlement proof is made from: the root, the balance
    /// (little-endian) and the key hash.
    pub fn settlement_proof_inputs(&self, final_state: &OverpassBitcoinState) -> (r: Vec<u8>)
        ensures
            r@ == final_state.state_root@ + vstd::bytes::spec_u64_to_le_bytes(final_state.current_balance)
                + final_state.pubkey_hash@,
    {
        let mut data: Vec<u8> = Vec::new();
        append_bytes(&mut data, final_state.state_root.as_slice());
        let balance = vstd::bytes::u64_to_le_bytes(final_state.current_balance);
        append_bytes(&mut data, balance.as_slice());
        append_bytes(&mut data, final_state.pubkey_hash.as_slice());
        data
    }
}

/// Whether two 20-byte hashes are equal.
pub fn bytes20_eq(a: &[u8; 20], b: &[u8; 20]) -> (r: bool)
    ensures
        r == (*a == *b),
{
    let mut i: usize = 0;
    while i < 20
        invariant
            i <= 20,
            a@.len() == 20,
            b@.len() == 20,
            forall|j: int| 0 <= j < i ==> a@[j] == b@[j],
        decreases 20 - i,
    {
        if a[i] != b[i] {
            return false;
        }
        i = i + 1;
    }
    assert(a@ =~= b@);
    assert(*a =~= *b);
    true
}

} // verus!
