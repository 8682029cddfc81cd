use vstd::prelude::*;

use crate::bitcoin_types::{BitcoinError, BitcoinNetwork};
use crate::currency::{balance_read, Bitcoin, BitcoinLedger, DispatchError, NativeCurrency};
use crate::hashing::append_bytes;
use crate::zkp_slice::{keccak256_digest, spec_keccak256, ProofMetadata, ProofType, ZkProofSlice};

verus! {

/// The label whose hash is the verification key of a proof kind.
pub open spec fn type_label(t: ProofType) -> Seq<u8> {
    match t {
        ProofType::Deposit => seq![0x44u8, 0x45, 0x50, 0x4F, 0x53, 0x49, 0x54],
        ProofType::Withdrawal => seq![0x57u8, 0x49, 0x54, 0x48, 0x44, 0x52, 0x41, 0x57, 0x41, 0x4C],
        ProofType::Transfer => seq![0x54u8, 0x52, 0x41, 0x4E, 0x53, 0x46, 0x45, 0x52],
    }
}

/// The slice of a proof: the hash of its bag of cells, made of the proof
/// bytes, the hash of the kind's label and the public inputs.
pub open spec fn spec_slice(proof: Seq<u8>, metadata: ProofMetadata, inputs: Seq<u8>) -> ZkProofSlice {
    ZkProofSlice {
        boc_hash: crate::replication::array32_of(spec_keccak256(proof + spec_keccak256(type_label(metadata.proof_type)) + inputs)),
        metadata,
    }
}

/// Three balances, each as sixteen little-endian bytes.
pub open spec fn le_inputs(a: u128, b: u128, c: u128) -> Seq<u8> {
    vstd::bytes::spec_u128_to_le_bytes(a) + vstd::bytes::spec_u128_to_le_bytes(b) + vstd::bytes::spec_u128_to_le_bytes(c)
}

/// What a deposit of `amount` onto `old` gives: refused when the new
/// balance does not fit, or a balance or the amount exceeds 64 bits (as the
/// proof system needs); otherwise the slice with old, new and amount as
/// inputs.
pub open spec fn spec_deposit_slice(old: u128, amount: u128, metadata: ProofMetadata, proof: Seq<u8>) -> Option<ZkProofSlice> {
    if old + amount > u128::MAX || old > u64::MAX || old + amount > u64::MAX || amount > u64::MAX {
        None
    } else {
        Some(spec_slice(proof, metadata, le_inputs(old, (old + amount) as u128, amount)))
    }
}

/// What a withdrawal of `amount` from `old` gives: refused when the balance
/// is short, or a balance or the amount exceeds 64 bits; otherwise the slice
/// with old, new and amount as inputs.
pub open spec fn spec_withdraw_slice(old: u128, amount: u128, metadata: ProofMetadata, proof: Seq<u8>) -> Option<ZkProofSlice> {
    if amount > old || old > u64::MAX || amount > u64::MAX {
        None
    } else {
        Some(spec_slice(proof, metadata, le_inputs(old, (old - amount) as u128, amount)))
    }
}

/// What a transfer of `amount` from a sender with `sender` to a recipient
/// with `recipient` gives: refused when the sender is short, the
/// recipient's new balance does not fit, or a balance or the amount exceeds
/// 64 bits; otherwise the slice with the sender's and recipient's balances
/// and the amount as inputs.
pub open spec fn spec_transfer_slice(sender: u128, recipient: u128, amount: u128, metadata: ProofMetadata, proof: Seq<
    u8,
>) -> Option<ZkProofSlice> {
    if amount > sender || recipient + amount > u128::MAX || sender > u64::MAX || recipient > u64::MAX || recipient
        + amount > u64::MAX || amount > u64::MAX {
        None
    } else {
        Some(spec_slice(proof, metadata, le_inputs(sender, recipient, amount)))
    }
}

/// Bitcoin deposits, withdrawals and transfers with a proof slice for each.
/// The proof bytes come from the proof system, which the caller runs.
pub struct BitcoinZkpManager {
    pub network: BitcoinNetwork,
}

impl BitcoinZkpManager {
    /// A manager for `network`.
    pub fn new(network: BitcoinNetwork) -> (r: Self)
        ensures
            r.network == network,
    {
        BitcoinZkpManager { network }
    }

    /// Checks a proof slice against the metadata expected of it: `false`
    /// when the metadata differ, without asking the proof system; otherwise
    /// what the proof system answered for the slice's hash (`answer`).
    pub fn verify_proof(
        &self,
        proof_slice: &ZkProofSlice,
        expected_metadata: &ProofMetadata,
        answer: Result<bool, BitcoinError>,
    ) -> (r: Result<bool, BitcoinError>)
        ensures
            proof_slice.metadata != *expected_metadata ==> r == Ok::<bool, BitcoinError>(false),
            proof_slice.metadata == *expected_metadata ==> r == answer,
    {
        if proof_slice.metadata != *expected_metadata {
            return Ok(false);
        }
        answer
    }

    /// The verification-key hash of a proof kind: the Keccak-256 hash of its
    /// label.
    pub fn calculate_verification_key_hash(&self, proof_type: ProofType) -> (r: Result<[u8; 32], BitcoinError>)
        ensures
            r matches Ok(h) && h@ == spec_keccak256(type_label(proof_type)),
    {
        let label: Vec<u8> = match proof_type {
            ProofType::Deposit => vec![0x44u8, 0x45, 0x50, 0x4F, 0x53, 0x49, 0x54],
            ProofType::Withdrawal => vec![0x57u8, 0x49, 0x54, 0x48, 0x44, 0x52, 0x41, 0x57, 0x41, 0x4C],
            ProofType::Transfer => vec![0x54u8, 0x52, 0x41, 0x4E, 0x53, 0x46, 0x45, 0x52],
        };
        assert(label@ =~= type_label(proof_type));
        Ok(keccak256_digest(label.as_slice()))
    }

    /// The slice for proof bytes, a kind and public inputs.
    fn make_slice(&self, proof: &Vec<u8>, metadata: ProofMetadata, inputs: &Vec<u8>) -> (r: Result<ZkProofSlice, BitcoinError>)
        ensures
            r matches Ok(s) && s == spec_slice(proof@, metadata, inputs@),
    {
        let vk = match self.calculate_verification_key_hash(metadata.proof_type) {
            Ok(h) => h,
            Err(e) => {
                return Err(e);
            },
        };
        let mut data: Vec<u8> = Vec::new();
        append_bytes(&mut data, proof.as_slice());
        append_bytes(&mut data, vk.as_slice());
        append_bytes(&mut data, inputs.as_slice());
        let h = keccak256_digest(data.as_slice());
        proof {
            crate::replication::lemma_array32_of(spec_keccak256(data@), h);
        }
        Ok(ZkProofSlice { boc_hash: h, metadata })
    }

    /// Three balances as sixteen little-endian bytes each.
    fn inputs_of(a: u128, b: u128, c: u128) -> (r: Vec<u8>)
        ensures
            r@ == le_inputs(a, b, c),
    {
        let mut v: Vec<u8> = Vec::new();
        append_bytes(&mut v, vstd::bytes::u128_to_le_bytes(a).as_slice());
        append_bytes(&mut v, vstd::bytes::u128_to_le_bytes(b).as_slice());
        append_bytes(&mut v, vstd::bytes::u128_to_le_bytes(c).as_slice());
        v
    }

    /// The slice for a deposit of `amount` onto `old`, as
    /// `spec_deposit_slice` states.
    pub fn deposit_slice(&self, old: u128, amount: u128, metadata: ProofMetadata, proof: &Vec<u8>) -> (r: Result<
        ZkProofSlice,
        BitcoinError,
    >)
        ensures
            spec_deposit_slice(old, amount, metadata, proof@) matches Some(s) ==> (r matches Ok(x) && x == s),
            spec_deposit_slice(old, amount, metadata, proof@) is None ==> (r matches Err(e) && e is InvalidTransaction),
    {
        let new = match old.checked_add(amount) {
            Some(n) => n,
            None => {
                return Err(BitcoinError::InvalidTransaction("Balance overflow".to_owned()));
            },
        };
        if old > 0xffff_ffff_ffff_ffffu128 || new > 0xffff_ffff_ffff_ffffu128 {
            return Err(BitcoinError::InvalidTransaction("Balance conversion failed".to_owned()));
        }
        if amount > 0xffff_ffff_ffff_ffffu128 {
            return Err(BitcoinError::InvalidTransaction("Amount conversion failed".to_owned()));
        }
        let inputs = Self::inputs_of(old, new, amount);
        self.make_slice(proof, metadata, &inputs)
    }

    /// The slice for a withdrawal of `amount` from `old`, as
    /// `spec_withdraw_slice` states.
    pub fn withdraw_slice(&self, old: u128, amount: u128, metadata: ProofMetadata, proof: &Vec<u8>) -> (r: Result<
        ZkProofSlice,
        BitcoinError,
    >)
        ensures
            spec_withdraw_slice(old, amount, metadata, proof@) matches Some(s) ==> (r matches Ok(x) && x == s),
            amount > old ==> (r matches Err(e) && e is InsufficientBalance),
            amount <= old && spec_withdraw_slice(old, amount, metadata, proof@) is None ==> (r matches Err(e)
                && e is InvalidTransaction),
    {
        let new = match old.checked_sub(amount) {
            Some(n) => n,
            None => {
                return Err(BitcoinError::InsufficientBalance("Insufficient balance for withdrawal".to_owned()));
            },
        };
        if old > 0xffff_ffff_ffff_ffffu128 || new > 0xffff_ffff_ffff_ffffu128 {
            return Err(BitcoinError::InvalidTransaction("Balance conversion failed".to_owned()));
        }
        if amount > 0xffff_ffff_ffff_ffffu128 {
            return Err(BitcoinError::InvalidTransaction("Amount conversion failed".to_owned()));
        }
        let inputs = Self::inputs_of(old, new, amount);
        self.make_slice(proof, metadata, &inputs)
    }

    /// The slice for a transfer of `amount`, as `spec_transfer_slice`
    /// states.
    pub fn transfer_slice(
        &self,
        sender: u128,
        recipient: u128,
        amount: u128,
        metadata: ProofMetadata,
        proof: &Vec<u8>,
    ) -> (r: Result<ZkProofSlice, BitcoinError>)
        ensures
            spec_transfer_slice(sender, recipient, amount, metadata, proof@) matches Some(s) ==> (r matches Ok(x) && x == s),
            amount > sender ==> (r matches Err(e) && e is InsufficientBalance),
            amount <= sender && spec_transfer_slice(sender, recipient, amount, metadata, proof@) is None ==> (r matches Err(
                e,
            ) && e is InvalidTransaction),
    {
        let new_sender = match sender.checked_sub(amount) {
            Some(n) => n,
            None => {
                return Err(BitcoinError::InsufficientBalance("Insufficient balance for transfer".to_owned()));
            },
        };
        let new_recipient = match recipient.checked_add(amount) {
            Some(n) => n,
            None => {
                return Err(BitcoinError::InvalidTransaction("Balance overflow".to_owned()));
            },
        };
        if sender > 0xffff_ffff_ffff_ffffu128 || recipient > 0xffff_ffff_ffff_ffffu128 || new_sender
            > 0xffff_ffff_ffff_ffffu128 || new_recipient > 0xffff_ffff_ffff_ffffu128 {
            return Err(BitcoinError::InvalidTransaction("Balance conversion failed".to_owned()));
        }
        if amount > 0xffff_ffff_ffff_ffffu128 {
            return Err(BitcoinError::InvalidTransaction("Amount conversion failed".to_owned()));
        }
        let inputs = Self::inputs_of(sender, recipient, amount);
        self.make_slice(proof, metadata, &inputs)
    }

    /// Deposits `amount` to `who` with a proof slice of the balance change:
    /// the slice is made from `who`'s balance before, as the ledger reports
    /// it (refused as `deposit_slice` refuses, nothing deposited), then the
    /// deposit is made, and its outcome is returned beside the slice.
    pub fn deposit_with_proof<C: NativeCurrency>(&self, who: u64, amount: u128, metadata: ProofMetadata, proof: &Vec<u8>) -> (r:
        Result<(Result<(), DispatchError>, ZkProofSlice), BitcoinError>)
        ensures
            exists|old: u128| #[trigger] balance_read::<C>(self.network, who, old) && match spec_deposit_slice(
                old,
                amount,
                metadata,
                proof@,
            ) {
                None => r matches Err(e) && e is InvalidTransaction,
                Some(s) => r matches Ok((d, x)) && x == s && (self.network == BitcoinNetwork::Bitcoin <==> d is Ok),
            },
            r matches Ok((d, s)) ==> (exists|old: u128| spec_deposit_slice(old, amount, metadata, proof@) == Some(s))
                && (self.network == BitcoinNetwork::Bitcoin <==> d is Ok),
    {
        let ledger = BitcoinLedger::new(self.network);
        let old = ledger.get_balance::<C>(who);
        let slice = match self.deposit_slice(old, amount, metadata, proof) {
            Ok(s) => s,
            Err(e) => {
                return Err(e);
            },
        };
        let result = Bitcoin::deposit::<C>(self.network, who, amount);
        Ok((result, slice))
    }

    /// Withdraws `amount` from `who` with a proof slice of the balance
    /// change: the slice is made from `who`'s balance before, as the ledger
    /// reports it (refused as `withdraw_slice` refuses, nothing withdrawn),
    /// then the withdrawal is made, and the currency's answer is returned
    /// beside the slice.
    pub fn withdraw_with_proof<C: NativeCurrency>(&self, who: u64, amount: u128, metadata: ProofMetadata, proof: &Vec<u8>) -> (r:
        Result<(Result<(), DispatchError>, ZkProofSlice), BitcoinError>)
        ensures
            exists|old: u128| #[trigger] balance_read::<C>(self.network, who, old) && match spec_withdraw_slice(
                old,
                amount,
                metadata,
                proof@,
            ) {
                None => r matches Err(e) && (if amount > old {
                    e is InsufficientBalance
                } else {
                    e is InvalidTransaction
                }),
                Some(s) => r matches Ok((d, x)) && x == s && (if self.network == BitcoinNetwork::Bitcoin {
                    call_ensures(C::withdraw, (who, amount), d)
                } else {
                    d == Err::<(), DispatchError>(DispatchError::UnsupportedCurrency)
                }),
            },
            r matches Ok((d, s)) ==> (exists|old: u128| spec_withdraw_slice(old, amount, metadata, proof@) == Some(s))
                && (self.network != BitcoinNetwork::Bitcoin ==> d == Err::<(), DispatchError>(
                DispatchError::UnsupportedCurrency,
            )),
    {
        let ledger = BitcoinLedger::new(self.network);
        let old = ledger.get_balance::<C>(who);
        let slice = match self.withdraw_slice(old, amount, metadata, proof) {
            Ok(s) => s,
            Err(e) => {
                return Err(e);
            },
        };
        let result = Bitcoin::withdraw::<C>(self.network, who, amount);
        Ok((result, slice))
    }

    /// Transfers `amount` from `from` to `to` with a proof slice of the
    /// balances: the slice is made from both balances before, as the ledger
    /// reports them (refused as `transfer_slice` refuses, nothing moved),
    /// then the transfer is made, and the currency's answer is returned
    /// beside the slice.
    pub fn transfer_with_proof<C: NativeCurrency>(
        &self,
        from: u64,
        to: u64,
        amount: u128,
        metadata: ProofMetadata,
        proof: &Vec<u8>,
    ) -> (r: Result<(Result<(), DispatchError>, ZkProofSlice), BitcoinError>)
        ensures
            exists|a: u128, b: u128| #[trigger] balance_read::<C>(self.network, from, a) && #[trigger] balance_read::<C>(
                self.network,
                to,
                b,
            ) && match spec_transfer_slice(a, b, amount, metadata, proof@) {
                None => r matches Err(e) && (if amount > a {
                    e is InsufficientBalance
                } else {
                    e is InvalidTransaction
                }),
                Some(s) => r matches Ok((d, x)) && x == s && (if self.network == BitcoinNetwork::Bitcoin {
                    call_ensures(C::transfer, (from, to, amount), d)
                } else {
                    d == Err::<(), DispatchError>(DispatchError::UnsupportedCurrency)
                }),
            },
            r matches Ok((d, s)) ==> (exists|a: u128, b: u128| spec_transfer_slice(a, b, amount, metadata, proof@) == Some(s))
                && (self.network != BitcoinNetwork::Bitcoin ==> d == Err::<(), DispatchError>(
                DispatchError::UnsupportedCurrency,
            )),
    {
        let ledger = BitcoinLedger::new(self.network);
        let sender = ledger.get_balance::<C>(from);
        let recipient = ledger.get_balance::<C>(to);
        let slice = match self.transfer_slice(sender, recipient, amount, metadata, proof) {
            Ok(s) => s,
            Err(e) => {
                return Err(e);
            },
        };
        let result = ledger.transfer::<C>(from, to, amount);
        Ok((result, slice))
    }
}

/// Bitcoin deposits and withdrawals that each come with a proof slice,
/// stamped with the metadata of their kind.
pub struct BitcoinManager {
    pub zkp_manager: BitcoinZkpManager,
}

/// The metadata of a deposit slice: version 1, no height bounds.
pub open spec fn deposit_metadata() -> ProofMetadata {
    ProofMetadata {
        version: 1,
        proof_type: ProofType::Deposit,
        height_bounds: crate::zkp_slice::HeightBounds { min_height: 0, max_height: 0 },
    }
}

/// The metadata of a withdrawal slice: version 1, valid at every height.
pub open spec fn withdrawal_metadata() -> ProofMetadata {
    ProofMetadata {
        version: 1,
        proof_type: ProofType::Withdrawal,
        height_bounds: crate::zkp_slice::HeightBounds { min_height: 0, max_height: u32::MAX },
    }
}

/// A proof failure as the manager reports it.
pub open spec fn is_proof_failure(e: BitcoinError) -> bool {
    e is ProofVerificationFailed
}

impl BitcoinManager {
    /// A manager for `network`.
    pub fn new(network: BitcoinNetwork) -> (r: Self)
        ensures
            r.zkp_manager.network == network,
    {
        BitcoinManager { zkp_manager: BitcoinZkpManager::new(network) }
    }

    /// A deposit with its proof slice, made with version-1 deposit metadata
    /// and no height bounds; any refusal is reported as a proof failure.
    pub fn process_deposit_with_proof<C: NativeCurrency>(&self, who: u64, amount: u128, proof: &Vec<u8>) -> (r: Result<
        (Result<(), DispatchError>, ZkProofSlice),
        BitcoinError,
    >)
        ensures
            exists|old: u128| #[trigger] balance_read::<C>(self.zkp_manager.network, who, old) && match spec_deposit_slice(
                old,
                amount,
                deposit_metadata(),
                proof@,
            ) {
                None => r matches Err(e) && is_proof_failure(e),
                Some(s) => r matches Ok((d, x)) && x == s && (self.zkp_manager.network == BitcoinNetwork::Bitcoin
                    <==> d is Ok),
            },
            r matches Ok((d, s)) ==> s.metadata == deposit_metadata(),
            r matches Err(e) ==> is_proof_failure(e),
    {
        let metadata = ProofMetadata {
            version: 1,
            proof_type: ProofType::Deposit,
            height_bounds: crate::zkp_slice::HeightBounds { min_height: 0, max_height: 0 },
        };
        match self.zkp_manager.deposit_with_proof::<C>(who, amount, metadata, proof) {
            Ok(x) => Ok(x),
            Err(_) => Err(BitcoinError::ProofVerificationFailed("Proof generation failed".to_owned())),
        }
    }

    /// A withdrawal with its proof slice, made with version-1 withdrawal
    /// metadata over all heights; any refusal is reported as a proof
    /// failure.
    pub fn process_withdrawal_with_proof<C: NativeCurrency>(&self, who: u64, amount: u128, proof: &Vec<u8>) -> (r: Result<
        (Result<(), DispatchError>, ZkProofSlice),
        BitcoinError,
    >)
        ensures
            exists|old: u128| #[trigger] balance_read::<C>(self.zkp_manager.network, who, old) && match spec_withdraw_slice(
                old,
                amount,
                withdrawal_metadata(),
                proof@,
            ) {
                None => r matches Err(e) && is_proof_failure(e),
                Some(s) => r matches Ok((d, x)) && x == s && (if self.zkp_manager.network == BitcoinNetwork::Bitcoin {
                    call_ensures(C::withdraw, (who, amount), d)
                } else {
                    d == Err::<(), DispatchError>(DispatchError::UnsupportedCurrency)
                }),
            },
            r matches Ok((d, s)) ==> s.metadata == withdrawal_metadata(),
            r matches Err(e) ==> is_proof_failure(e),
    {
        let metadata = ProofMetadata {
            version: 1,
            proof_type: ProofType::Withdrawal,
            height_bounds: crate::zkp_slice::HeightBounds { min_height: 0, max_height: u32::MAX },
        };
        match self.zkp_manager.withdraw_with_proof::<C>(who, amount, metadata, proof) {
            Ok(x) => Ok(x),
            Err(_) => Err(BitcoinError::ProofVerificationFailed("Proof generation failed".to_owned())),
        }
    }
}

} // verus!
