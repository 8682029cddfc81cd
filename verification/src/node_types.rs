use vstd::prelude::*;

use crate::boc::BOC;
use crate::errors::{SystemError, SystemErrorType};

verus! {

/// A fixed-size byte value that can be written in several encodings; for
/// types that wrap `N` bytes.
pub trait ByteArray<const N: usize>: Sized {
    fn new() -> Self;

    fn from_bytes(bytes: [u8; N]) -> Self;

    fn to_bytes(&self) -> [u8; N];

    fn from_str(s: &str) -> Self;

    fn to_string(&self) -> String;

    fn from_hex(s: &str) -> Self;

    fn to_hex(&self) -> String;

    fn from_base64(s: &str) -> Self;

    fn to_base64(&self) -> String;

    fn zero() -> Self;

    fn one() -> Self;
}

/// A request to rebalance channels between intermediate contracts.
#[derive(Clone, Copy, Debug)]
pub struct RebalanceRequest {}

/// The code and state of a stored contract.
#[derive(Clone, Debug)]
pub struct ContractState {
    pub code: Vec<u8>,
    pub state: Vec<u8>,
}

/// A stored channel: its serialised state and contract, and its nonce.
#[derive(Clone, Debug)]
pub struct ChannelState {
    pub state_boc: Vec<u8>,
    pub contract_boc: Vec<u8>,
    pub nonce: u64,
}

/// Which level of the hierarchy a replicated state belongs to.
#[derive(Clone, Copy, Debug, PartialEq, Eq, Structural)]
pub enum StateType {
    Wallet,
    Intermediate,
    Root,
}

/// Where synchronisation with a peer stands.
#[derive(Clone, Copy, Debug, PartialEq, Eq, Structural)]
pub enum SyncStateEnum {
    Idle,
    Syncing,
    Verified,
    Failed,
    Suspended,
}

/// A state held locally for synchronisation: its hash, its data and when it
/// was taken.
#[derive(Clone, Debug)]
pub struct LocalSyncState {
    pub hash: [u8; 32],
    pub data: BOC,
    pub timestamp: u64,
}

/// Why verifying replicated state failed, with a message.
#[derive(Clone, Debug)]
pub enum VerificationError {
    ConsistencyError(String),
    DistributionError(String),
    StateError(String),
    ZkpError(String),
}

/// The verification failure a system error stands for: consistency,
/// distribution and verification errors keep their kind (the last as a
/// proof failure); any other is a state failure. The message is kept.
pub open spec fn spec_verification_error(error: SystemError) -> VerificationError {
    match error.error_type {
        SystemErrorType::ConsistencyError => VerificationError::ConsistencyError(error.message),
        SystemErrorType::DistributionError => VerificationError::DistributionError(error.message),
        SystemErrorType::VerificationError => VerificationError::ZkpError(error.message),
        _ => VerificationError::StateError(error.message),
    }
}

impl From<SystemError> for VerificationError {
    fn from(error: SystemError) -> (r: Self) {
        match error.error_type {
            SystemErrorType::ConsistencyError => VerificationError::ConsistencyError(error.message),
            SystemErrorType::DistributionError => VerificationError::DistributionError(error.message),
            SystemErrorType::VerificationError => VerificationError::ZkpError(error.message),
            _ => VerificationError::StateError(error.message),
        }
    }
}

impl vstd::std_specs::convert::FromSpecImpl<SystemError> for VerificationError {
    open spec fn obeys_from_spec() -> bool {
        true
    }

    open spec fn from_spec(error: SystemError) -> VerificationError {
        spec_verification_error(error)
    }
}

/// Counts of storage and retrieval work done by a node's attestation part.
#[derive(Clone, Copy, Debug)]
pub struct StorageAndRetrievalMetrics {
    pub store_boc: u64,
    pub store_proof: u64,
    pub retrieve_boc: u64,
    pub retrieve_proof: u64,
}

impl Default for StorageAndRetrievalMetrics {
    fn default() -> (r: Self)
        ensures
            r.store_boc == 0 && r.store_proof == 0 && r.retrieve_boc == 0 && r.retrieve_proof == 0,
    {
        StorageAndRetrievalMetrics { store_boc: 0, store_proof: 0, retrieve_boc: 0, retrieve_proof: 0 }
    }
}

/// The inputs of a confidential-transaction circuit.
#[derive(Clone, Copy, Debug)]
pub struct ConfidentialTxInputs {
    pub amount: u64,
    pub blind_factor: [u8; 32],
    pub private_key: [u8; 32],
}

/// The inputs of a multisignature circuit.
#[derive(Clone, Copy, Debug)]
pub struct MultisigInputs {
    pub threshold: usize,
    pub total_keys: usize,
    pub message: [u8; 32],
}

/// The inputs of a timelock circuit.
#[derive(Clone, Copy, Debug)]
pub struct TimelockInputs {
    pub lock_time: u64,
    pub amount: u64,
    pub recipient_key: [u8; 32],
}

/// The inputs of a ring-signature circuit.
#[derive(Clone, Copy, Debug)]
pub struct RingSignatureInputs {
    pub ring_size: usize,
    pub message: [u8; 32],
}

/// Reads of the global root and its history, from the bytes stored for them.
pub struct AuditInterface {}

/// The 32 bytes of a stored root.
pub open spec fn root_of(stored: Option<Seq<u8>>) -> Seq<u8> {
    match stored {
        Some(b) => if b.len() == 32 {
            b
        } else {
            crate::boc::zero_hash()
        },
        None => crate::boc::zero_hash(),
    }
}

impl AuditInterface {
    /// The current global root from the stored bytes (`None` when nothing
    /// could be read): the bytes themselves when there are exactly 32,
    /// otherwise zero.
    pub fn query_global_root(stored: Option<Vec<u8>>) -> (r: [u8; 32])
        ensures
            r@ == root_of(
                match stored {
                    Some(b) => Some(b@),
                    None => None,
                },
            ),
    {
        let mut root = crate::boc::zero_bytes32();
        if let Some(bytes) = stored {
            if bytes.len() == 32 {
                let mut i: usize = 0;
                while i < 32
                    invariant
                        i <= 32,
                        bytes@.len() == 32,
                        root@.len() == 32,
                        forall|j: int| 0 <= j < i ==> root@[j] == bytes@[j],
                    decreases 32 - i,
                {
                    root[i] = bytes[i];
                    i = i + 1;
                }
                assert(root@ =~= bytes@);
            }
        }
        root
    }

    /// The history of global roots from the stored bytes (`None` when nothing
    /// could be read): one root per whole 32 bytes, in order; a shorter tail
    /// is ignored.
    pub fn query_root_history(stored: Option<Vec<u8>>) -> (r: Vec<[u8; 32]>)
        ensures
            match stored {
                None => r@.len() == 0,
                Some(b) => {
                    &&& r@.len() == b@.len() / 32
                    &&& forall|k: int| 0 <= k < r@.len() ==> (#[trigger] r@[k])@ == b@.subrange(32 * k, 32 * k + 32)
                },
            },
    {
        let mut history: Vec<[u8; 32]> = Vec::new();
        if let Some(bytes) = stored {
            let total = bytes.len();
            let n = total / 32;
            let mut k: usize = 0;
            while k < n
                invariant
                    total == bytes@.len(),
                    n == bytes@.len() / 32,
                    k <= n,
                    history@.len() == k,
                    forall|m: int| 0 <= m < k ==> (#[trigger] history@[m])@ == bytes@.subrange(32 * m, 32 * m + 32),
                decreases n - k,
            {
                let mut root = crate::boc::zero_bytes32();
                assert(32 * k + 32 <= bytes@.len()) by (nonlinear_arith)
                    requires
                        k < n,
                        n == bytes@.len() / 32,
                ;
                let base = 32 * k;
                let mut i: usize = 0;
                while i < 32
                    invariant
                        i <= 32,
                        base + 32 <= bytes@.len(),
                        total == bytes@.len(),
                        root@.len() == 32,
                        forall|j: int| 0 <= j < i ==> root@[j] == bytes@[base + j],
                    decreases 32 - i,
                {
                    root[i] = bytes[base + i];
                    i = i + 1;
                }
                assert(root@ =~= bytes@.subrange(base as int, base as int + 32));
                history.push(root);
                k = k + 1;
            }
        }
        history
    }
}

} // verus!
