use vstd::prelude::*;

use crate::errors::{SystemError, SystemErrorType};

verus! {

/// What a Bitcoin proof attests.
#[derive(Clone, Copy, Debug, PartialEq, Eq, Structural)]
pub enum BitcoinProofType {
    Deposit,
    Withdrawal,
    Transfer,
}

impl BitcoinProofType {
    /// The wire number of the proof type: 1, 2 or 3.
    pub fn code(&self) -> (r: u8)
        ensures
            r == (match *self {
                BitcoinProofType::Deposit => 1u8,
                BitcoinProofType::Withdrawal => 2u8,
                BitcoinProofType::Transfer => 3u8,
            }),
    {
        match self {
            BitcoinProofType::Deposit => 1,
            BitcoinProofType::Withdrawal => 2,
            BitcoinProofType::Transfer => 3,
        }
    }
}

/// Block-height bounds a proof is valid within.
#[derive(Clone, Copy, Debug, PartialEq, Eq, Structural)]
pub struct HeightBounds {
    pub min: u64,
    pub max: u64,
    pub start: i32,
    pub end: i32,
}

/// A zero-knowledge proof about a Bitcoin balance change.
#[derive(Clone, Debug)]
pub struct BitcoinZkProof {
    pub proof_data: Vec<u8>,
    pub public_inputs: Vec<u64>,
    pub merkle_root: Vec<u8>,
    pub timestamp: u64,
    pub version: u8,
    pub proof_type: BitcoinProofType,
    pub height_bounds: HeightBounds,
    pub channel_id: String,
    pub created_at: u64,
    pub verified_at: Option<u64>,
}

/// Version, type and bounds of a proof.
#[derive(Clone, Copy, Debug, PartialEq, Eq, Structural)]
pub struct BitcoinProofMetadata {
    pub version: u8,
    pub proof_type: BitcoinProofType,
    pub height_bounds: HeightBounds,
}

/// A proof referenced by the hash of the bag of cells holding it.
#[derive(Clone, Debug)]
pub struct BitcoinProofSlice {
    pub boc_hash: [u8; 32],
    pub metadata: BitcoinProofMetadata,
}

/// A proof as stored in a bag of cells.
#[derive(Clone, Debug)]
pub struct BitcoinProofBoc {
    pub proof_data: Vec<u8>,
    pub vk_hash: [u8; 32],
    pub public_inputs: Vec<u8>,
    pub auxiliary_data: Vec<u8>,
}

/// A proof with its metadata.
#[derive(Clone, Debug)]
pub struct BitcoinProofBundle {
    pub proof: BitcoinZkProof,
    pub metadata: BitcoinProofMetadata,
}

/// The outcome of the structural checks every proof must pass: its data and
/// public inputs are non-empty and its Merkle root has 32 bytes.
pub open spec fn spec_internal_check(p: BitcoinZkProof) -> Result<bool, SystemErrorType> {
    if p.proof_data@.len() == 0 || p.public_inputs@.len() == 0 || p.merkle_root@.len() != 32 {
        Err(SystemErrorType::InvalidTransaction)
    } else {
        Ok(true)
    }
}

/// The outcome of checking a proof's public inputs against its type.
/// Deposit: (old, new, amount) with new = old + amount.
/// Withdrawal: (old, new, amount, fee) with amount + fee <= old.
/// Transfer: (sender balance, amount, recipient balance) with amount <= sender balance.
pub open spec fn spec_type_check(p: BitcoinZkProof) -> Result<bool, SystemErrorType> {
    let inputs = p.public_inputs@;
    match p.proof_type {
        BitcoinProofType::Deposit => if inputs.len() < 3 {
            Err(SystemErrorType::InvalidTransaction)
        } else if inputs[1] != inputs[0] + inputs[2] {
            Err(SystemErrorType::InvalidAmount)
        } else {
            Ok(true)
        },
        BitcoinProofType::Withdrawal => if inputs.len() < 4 {
            Err(SystemErrorType::InvalidTransaction)
        } else if inputs[2] + inputs[3] > inputs[0] {
            Err(SystemErrorType::InsufficientBalance)
        } else {
            Ok(true)
        },
        BitcoinProofType::Transfer => if inputs.len() < 3 {
            Err(SystemErrorType::InvalidTransaction)
        } else if inputs[1] > inputs[0] {
            Err(SystemErrorType::InsufficientBalance)
        } else {
            Ok(true)
        },
    }
}

/// The outcome of verifying a proof: the structural checks, then the type checks.
pub open spec fn spec_verify(p: BitcoinZkProof) -> Result<bool, SystemErrorType> {
    match spec_internal_check(p) {
        Err(e) => Err(e),
        Ok(_) => spec_type_check(p),
    }
}

/// The sums the verifier forms stay within `u64`.
pub open spec fn verifier_sums_fit(p: BitcoinZkProof) -> bool {
    let inputs = p.public_inputs@;
    &&& (p.proof_type == BitcoinProofType::Deposit && inputs.len() >= 3 ==> inputs[0] + inputs[2] <= u64::MAX)
    &&& (p.proof_type == BitcoinProofType::Withdrawal && inputs.len() >= 4 ==> inputs[2] + inputs[3] <= u64::MAX)
}

/// The kind of a result, without its message.
pub open spec fn result_kind(r: Result<bool, SystemError>) -> Result<bool, SystemErrorType> {
    match r {
        Ok(b) => Ok(b),
        Err(e) => Err(e.error_type),
    }
}

impl BitcoinZkProof {
    /// Checks that the proof has data, public inputs and a 32-byte Merkle root.
    pub fn verify_internally(&self) -> (r: Result<bool, SystemError>)
        ensures
            result_kind(r) == spec_internal_check(*self),
    {
        if self.proof_data.len() == 0 {
            return Err(SystemError::new(SystemErrorType::InvalidTransaction, "Empty proof data"));
        }
        if self.public_inputs.len() == 0 {
            return Err(SystemError::new(SystemErrorType::InvalidTransaction, "Missing public inputs"));
        }
        if self.merkle_root.len() != 32 {
            return Err(SystemError::new(SystemErrorType::InvalidTransaction, "Invalid merkle root length"));
        }
        Ok(true)
    }
}

/// Checks Bitcoin proofs against the balance rules of their type.
pub struct BitcoinProofVerifier {}

impl BitcoinProofVerifier {
    /// A verifier.
    pub fn new() -> (r: Self) {
        BitcoinProofVerifier {}
    }

    /// Verifies a proof: its structure, then the balance rule of its type.
    pub fn verify(&self, proof: &BitcoinZkProof) -> (r: Result<bool, SystemError>)
        requires
            verifier_sums_fit(*proof),
        ensures
            result_kind(r) == spec_verify(*proof),
    {
        let checked = proof.verify_internally();
        match checked {
            Err(e) => { return Err(e); },
            Ok(_) => {},
        }
        match proof.proof_type {
            BitcoinProofType::Deposit => self.verify_deposit(proof),
            BitcoinProofType::Withdrawal => self.verify_withdrawal(proof),
            BitcoinProofType::Transfer => self.verify_transfer(proof),
        }
    }

    /// A deposit moves the balance from old to old + amount.
    fn verify_deposit(&self, proof: &BitcoinZkProof) -> (r: Result<bool, SystemError>)
        requires
            proof.proof_type == BitcoinProofType::Deposit,
            verifier_sums_fit(*proof),
        ensures
            result_kind(r) == spec_type_check(*proof),
    {
        if proof.public_inputs.len() < 3 {
            return Err(SystemError::new(SystemErrorType::InvalidTransaction, "Deposit proof requires at least 3 public inputs"));
        }
        let old_balance = proof.public_inputs[0];
        let new_balance = proof.public_inputs[1];
        let amount = proof.public_inputs[2];
        if new_balance != old_balance + amount {
            return Err(SystemError::new(SystemErrorType::InvalidAmount, "Invalid deposit amount"));
        }
        Ok(true)
    }

    /// A withdrawal of amount plus fee needs that much balance.
    fn verify_withdrawal(&self, proof: &BitcoinZkProof) -> (r: Result<bool, SystemError>)
        requires
            proof.proof_type == BitcoinProofType::Withdrawal,
            verifier_sums_fit(*proof),
        ensures
            result_kind(r) == spec_type_check(*proof),
    {
        if proof.public_inputs.len() < 4 {
            return Err(SystemError::new(SystemErrorType::InvalidTransaction, "Withdrawal proof requires at least 4 public inputs"));
        }
        let old_balance = proof.public_inputs[0];
        let amount = proof.public_inputs[2];
        let fee = proof.public_inputs[3];
        if amount + fee > old_balance {
            return Err(SystemError::new(SystemErrorType::InsufficientBalance, "Insufficient balance for withdrawal"));
        }
        Ok(true)
    }

    /// A transfer cannot send more than the sender holds.
    fn verify_transfer(&self, proof: &BitcoinZkProof) -> (r: Result<bool, SystemError>)
        requires
            proof.proof_type == BitcoinProofType::Transfer,
        ensures
            result_kind(r) == spec_type_check(*proof),
    {
        if proof.public_inputs.len() < 3 {
            return Err(SystemError::new(SystemErrorType::InvalidTransaction, "Transfer proof requires at least 3 public inputs"));
        }
        let sender_balance = proof.public_inputs[0];
        let amount = proof.public_inputs[1];
        if amount > sender_balance {
            return Err(SystemError::new(SystemErrorType::InsufficientBalance, "Insufficient balance for transfer"));
        }
        Ok(true)
    }
}

/// A verified proof never fails for being valid: verification returns
/// `Ok(true)` or an error, never `Ok(false)`.
pub proof fn lemma_verify_never_false(p: BitcoinZkProof)
    ensures
        spec_verify(p) != Ok::<bool, SystemErrorType>(false),
{
}

/// Lowercase hexadecimal digit for a value below 16.
pub open spec fn hex_digit(v: u8) -> char {
    if v < 10 { (('0' as u8) + v) as char } else { (('a' as u8) + (v - 10)) as char }
}

/// Lowercase hexadecimal text of a byte string: two digits per byte, high nibble first.
pub open spec fn spec_hex_lower(bytes: Seq<u8>) -> Seq<char>
    decreases bytes.len(),
{
    if bytes.len() == 0 {
        Seq::empty()
    } else {
        spec_hex_lower(bytes.drop_last()) + seq![hex_digit(bytes.last() / 16), hex_digit(bytes.last() % 16)]
    }
}

/// Calls `hex::encode`.
/// Claimed, as the crate documents: lowercase hexadecimal, two digits per
/// byte, high nibble first.
#[verifier::external_body]
pub(crate) fn hex_encode(bytes: &[u8]) -> (r: String)
    ensures
        r@ == spec_hex_lower(bytes@),
{
    hex::encode(bytes)
}

/// The proof bundle for a balance change: public inputs (old, new, amount),
/// version 1, zero height bounds, empty Merkle root, created and stamped at
/// `now`, and the first 32 bytes of the channel id, when one is given, as
/// lowercase hex (empty otherwise).
pub fn build_proof_bundle(
    proof_bytes: Vec<u8>,
    old_balance: u64,
    new_balance: u64,
    amount: u64,
    proof_type: BitcoinProofType,
    channel_id: Option<Vec<u8>>,
    now: u64,
) -> (r: BitcoinProofBundle)
    requires
        channel_id matches Some(id) ==> id@.len() >= 32,
    ensures
        r.proof.proof_data == proof_bytes,
        r.proof.public_inputs@ == seq![old_balance, new_balance, amount],
        r.proof.merkle_root@.len() == 0,
        r.proof.timestamp == now,
        r.proof.created_at == now,
        r.proof.verified_at is None,
        r.proof.version == 1,
        r.proof.proof_type == proof_type,
        r.proof.channel_id@ == (match channel_id {
            Some(id) => spec_hex_lower(id@.subrange(0, 32)),
            None => Seq::<char>::empty(),
        }),
        r.proof.height_bounds == (HeightBounds { min: 0, max: 0, start: 0, end: 0 }),
        r.metadata == (BitcoinProofMetadata {
            version: 1,
            proof_type,
            height_bounds: HeightBounds { min: 0, max: 0, start: 0, end: 0 },
        }),
{
    let channel_id_str = match &channel_id {
        Some(id) => {
            let mut head: Vec<u8> = Vec::new();
            for i in 0..32
                invariant
                    id@.len() >= 32,
                    head@ == id@.subrange(0, i as int),
            {
                head.push(id[i]);
            }
            hex_encode(head.as_slice())
        },
        None => String::new(),
    };
    let bounds = HeightBounds { min: 0, max: 0, start: 0, end: 0 };
    let mut public_inputs: Vec<u64> = Vec::new();
    public_inputs.push(old_balance);
    public_inputs.push(new_balance);
    public_inputs.push(amount);
    BitcoinProofBundle {
        proof: BitcoinZkProof {
            proof_data: proof_bytes,
            public_inputs,
            merkle_root: Vec::new(),
            timestamp: now,
            version: 1,
            proof_type,
            channel_id: channel_id_str,
            created_at: now,
            verified_at: None,
            height_bounds: bounds,
        },
        metadata: BitcoinProofMetadata { version: 1, proof_type, height_bounds: bounds },
    }
}

} // verus!
