use vstd::prelude::*;

use crate::channel_state::{BitcoinChannelState, HTLCState};
use crate::clock::current_timestamp;
use crate::hashing::{append_bytes, sha256_digest, spec_sha256};
use crate::tx_builder::BitcoinTransaction;

verus! {

/// What a channel proof attests.
#[derive(Clone, Copy, Debug, PartialEq, Eq, Structural)]
pub enum BitcoinProofType {
    StateTransition,
}

/// Why producing a channel proof failed.
#[derive(Clone, Copy, Debug, PartialEq, Eq, Structural)]
pub enum ProofError {
    InvalidState,
    InvalidCircuit,
    InvalidWitness,
    ProofGenerationFailed,
    VerificationFailed,
    InvalidNullifier,
}

/// A proof about a channel, with the values it commits to.
#[derive(Clone, Debug)]
pub struct BitcoinZkProof {
    pub proof_data: Vec<u8>,
    pub public_inputs: Vec<u64>,
    pub merkle_root: [u8; 32],
    pub timestamp: u64,
    pub btc_block_height: u32,
    pub funding_txid: [u8; 32],
    pub output_index: u32,
    /// The HTLC's script bytes. The proofs made here leave it empty: an
    /// HTLC state holds no script to take it from (its keys may be missing,
    /// and no encoding of an HTLC state into a script is defined for them).
    pub htlc_script: Vec<u8>,
    pub nullifier: [u8; 32],
}

/// What a channel proof is about and when it holds.
#[derive(Clone, Copy, Debug)]
pub struct BitcoinProofMetadata {
    pub proof_type: BitcoinProofType,
    pub channel_id: [u8; 32],
    pub created_at: u64,
    pub verified_at: Option<u64>,
    pub btc_block_height: u32,
    pub htlc_timelock: u32,
    pub commitment_nullifier: [u8; 32],
    pub merkle_root: [u8; 32],
    pub height_bounds: (u32, u32),
}

/// A channel proof with its metadata.
#[derive(Clone, Debug)]
pub struct BitcoinProofBundle {
    pub proof: BitcoinZkProof,
    pub metadata: BitcoinProofMetadata,
}

/// A state may follow another when its sequence number does not go back and
/// its balance does not grow; a repeat of the same move is caught by its
/// nullifier instead.
pub open spec fn valid_transition(old_state: BitcoinChannelState, new_state: BitcoinChannelState) -> bool {
    new_state.sequence >= old_state.sequence && new_state.balance <= old_state.balance
}

/// An HTLC may be proved while its expiry lies ahead and its amount is not
/// zero. The timelock counts blocks from the current height (the proof's
/// height bounds run from that height to that height plus the timelock), so
/// the expiry lies ahead exactly when the timelock is not zero.
pub open spec fn valid_htlc(htlc_state: HTLCState, current_height: u32) -> bool {
    current_height < current_height + htlc_state.timelock && htlc_state.amount != 0
}

/// The nullifier of a channel state: SHA-256 of the channel id, then the
/// sequence number and block height in little-endian bytes.
pub open spec fn spec_state_nullifier(state: BitcoinChannelState) -> Seq<u8> {
    spec_sha256(
        state.channel_id@ + vstd::bytes::spec_u64_to_le_bytes(state.sequence) + vstd::bytes::spec_u32_to_le_bytes(
            state.block_height,
        ),
    )
}

/// The nullifier of an HTLC: SHA-256 of its amount and timelock in
/// little-endian bytes, then its payment hash when it has one.
pub open spec fn spec_htlc_nullifier(htlc_state: HTLCState) -> Seq<u8> {
    spec_sha256(
        vstd::bytes::spec_u64_to_le_bytes(htlc_state.amount) + vstd::bytes::spec_u32_to_le_bytes(htlc_state.timelock)
            + match htlc_state.preimage_hash {
            Some(h) => h@,
            None => Seq::<u8>::empty(),
        },
    )
}

/// The byte strings of a list of 32-byte values.
pub open spec fn ids_view(ids: Seq<[u8; 32]>) -> Seq<Seq<u8>> {
    ids.map_values(|n: [u8; 32]| n@)
}

/// Produces channel and HTLC proofs, each under a nullifier that may be used
/// once.
pub struct BitcoinProofGenerator {
    nullifier_set: Vec<[u8; 32]>,
}

impl BitcoinProofGenerator {
    /// The nullifiers used so far.
    pub closed spec fn nullifiers(&self) -> Set<Seq<u8>> {
        ids_view(self.nullifier_set@).to_set()
    }

    /// A generator that has used no nullifier.
    pub fn new() -> (r: Result<Self, ProofError>)
        ensures
            r matches Ok(g) && g.nullifiers() == Set::<Seq<u8>>::empty(),
    {
        let g = BitcoinProofGenerator { nullifier_set: Vec::new() };
        assert(g.nullifiers() =~= Set::<Seq<u8>>::empty());
        Ok(g)
    }

    /// Records `nullifier` as used; false, changing nothing, when it already
    /// was.
    fn use_nullifier(&mut self, nullifier: [u8; 32]) -> (r: bool)
        ensures
            r == !old(self).nullifiers().contains(nullifier@),
            final(self).nullifiers() == old(self).nullifiers().insert(nullifier@),
    {
        let n = self.nullifier_set.len();
        for i in 0..n
            invariant
                n == self.nullifier_set@.len(),
                forall|j: int| 0 <= j < i ==> self.nullifier_set@[j]@ != nullifier@,
        {
            if crate::btc::bytes32_eq(&self.nullifier_set[i], &nullifier) {
                proof {
                    assert(ids_view(self.nullifier_set@)[i as int] == nullifier@);
                    assert(self.nullifiers().insert(nullifier@) =~= self.nullifiers());
                }
                return false;
            }
            proof {
                if self.nullifier_set@[i as int]@ == nullifier@ {
                    assert(self.nullifier_set@[i as int] =~= nullifier);
                }
            }
        }
        let ghost before = self.nullifier_set@;
        proof {
            if self.nullifiers().contains(nullifier@) {
                let k = choose|k: int| 0 <= k < before.len() && #[trigger] ids_view(before)[k] == nullifier@;
                assert(before[k]@ == nullifier@);
            }
        }
        self.nullifier_set.push(nullifier);
        proof {
            let after = ids_view(self.nullifier_set@);
            assert(after == ids_view(before).push(nullifier@));
            assert(self.nullifiers() =~= ids_view(before).to_set().insert(nullifier@)) by {
                assert forall|x: Seq<u8>| self.nullifiers().contains(x) <==> ids_view(before).to_set().insert(
                    nullifier@,
                ).contains(x) by {
                    if self.nullifiers().contains(x) {
                        let k = choose|k: int| 0 <= k < after.len() && #[trigger] after[k] == x;
                        if k < before.len() {
                            assert(ids_view(before)[k] == x);
                        }
                    }
                    if ids_view(before).to_set().contains(x) {
                        let k = choose|k: int| 0 <= k < before.len() && #[trigger] ids_view(before)[k] == x;
                        assert(after[k] == x);
                    }
                    if x == nullifier@ {
                        assert(after[before.len() as int] == x);
                    }
                }
            }
        }
        true
    }

    /// Checks that `new_state` may follow `old_state`.
    fn verify_state_transition(&self, old_state: &BitcoinChannelState, new_state: &BitcoinChannelState) -> (r: Result<
        (),
        ProofError,
    >)
        ensures
            r is Ok <==> valid_transition(*old_state, *new_state),
            r is Err ==> r == Err::<(), ProofError>(ProofError::InvalidState),
    {
        if new_state.sequence < old_state.sequence {
            return Err(ProofError::InvalidState);
        }
        if new_state.balance > old_state.balance {
            return Err(ProofError::InvalidState);
        }
        Ok(())
    }

    /// Checks that an HTLC may be proved at `current_height`.
    fn verify_htlc_state(&self, htlc_state: &HTLCState, current_height: u32) -> (r: Result<(), ProofError>)
        ensures
            r is Ok <==> valid_htlc(*htlc_state, current_height),
            r is Err ==> r == Err::<(), ProofError>(ProofError::InvalidState),
    {
        if htlc_state.timelock == 0 {
            return Err(ProofError::InvalidState);
        }
        if htlc_state.amount == 0 {
            return Err(ProofError::InvalidState);
        }
        Ok(())
    }

    /// The nullifier of a channel state.
    pub fn generate_nullifier(&self, state: &BitcoinChannelState) -> (r: [u8; 32])
        ensures
            r@ == spec_state_nullifier(*state),
    {
        let mut data: Vec<u8> = Vec::new();
        append_bytes(&mut data, state.channel_id.as_slice());
        let seq_bytes = vstd::bytes::u64_to_le_bytes(state.sequence);
        append_bytes(&mut data, seq_bytes.as_slice());
        let height_bytes = vstd::bytes::u32_to_le_bytes(state.block_height);
        append_bytes(&mut data, height_bytes.as_slice());
        sha256_digest(data.as_slice())
    }

    /// The nullifier of an HTLC.
    pub fn generate_htlc_nullifier(&self, htlc_state: &HTLCState) -> (r: [u8; 32])
        ensures
            r@ == spec_htlc_nullifier(*htlc_state),
    {
        let mut data: Vec<u8> = Vec::new();
        let amount_bytes = vstd::bytes::u64_to_le_bytes(htlc_state.amount);
        append_bytes(&mut data, amount_bytes.as_slice());
        let timelock_bytes = vstd::bytes::u32_to_le_bytes(htlc_state.timelock);
        append_bytes(&mut data, timelock_bytes.as_slice());
        if let Some(h) = htlc_state.preimage_hash {
            append_bytes(&mut data, h.as_slice());
        } else {
            assert(data@ == data@ + Seq::<u8>::empty());
        }
        sha256_digest(data.as_slice())
    }

    /// The proof bundle for the move from `old_state` to `new_state`, whose
    /// proof bytes are `channel_proof`: refused when the move is not valid,
    /// or when the new state's nullifier was used before (the generator then
    /// does not change); otherwise the nullifier is recorded. The public
    /// inputs are the old balance, the new balance and the new sequence
    /// number; the funding id is the transaction's first related id, or
    /// zero.
    pub fn generate_state_proof(
        &mut self,
        old_state: &BitcoinChannelState,
        new_state: &BitcoinChannelState,
        transaction: &BitcoinTransaction,
        channel_proof: Vec<u8>,
    ) -> (r: Result<BitcoinProofBundle, ProofError>)
        requires
            new_state.block_height + 6 <= u32::MAX,
        ensures
            !valid_transition(*old_state, *new_state) ==> (r matches Err(e) && e == ProofError::InvalidState)
                && final(self).nullifiers() == old(self).nullifiers(),
            valid_transition(*old_state, *new_state) && old(self).nullifiers().contains(spec_state_nullifier(*new_state))
                ==> (r matches Err(e) && e == ProofError::InvalidNullifier) && final(self).nullifiers() == old(self).nullifiers(),
            valid_transition(*old_state, *new_state) && !old(self).nullifiers().contains(spec_state_nullifier(*new_state))
                ==> final(self).nullifiers() == old(self).nullifiers().insert(spec_state_nullifier(*new_state))
                && (r matches Ok(b) && {
                &&& b.proof.proof_data@ == channel_proof@
                &&& b.proof.public_inputs@ == seq![old_state.balance, new_state.balance, new_state.sequence]
                &&& b.proof.merkle_root == new_state.merkle_root
                &&& b.proof.btc_block_height == new_state.block_height
                &&& (if transaction.metadata.related_txids@.len() > 0 {
                    b.proof.funding_txid == transaction.metadata.related_txids@[0]
                } else {
                    b.proof.funding_txid@ == crate::boc::zero_hash()
                })
                &&& b.proof.output_index == 0
                &&& b.proof.htlc_script@.len() == 0
                &&& b.proof.nullifier@ == spec_state_nullifier(*new_state)
                &&& b.metadata.proof_type == BitcoinProofType::StateTransition
                &&& b.metadata.channel_id == new_state.channel_id
                &&& b.metadata.verified_at is None
                &&& b.metadata.btc_block_height == new_state.block_height
                &&& b.metadata.htlc_timelock == 0
                &&& b.metadata.commitment_nullifier == b.proof.nullifier
                &&& b.metadata.merkle_root == new_state.merkle_root
                &&& b.metadata.height_bounds == (new_state.block_height, (new_state.block_height + 6) as u32)
            }),
    {
        self.verify_state_transition(old_state, new_state)?;
        let nullifier = self.generate_nullifier(new_state);
        if !self.use_nullifier(nullifier) {
            proof {
                assert(old(self).nullifiers().insert(nullifier@) =~= old(self).nullifiers());
            }
            return Err(ProofError::InvalidNullifier);
        }
        let funding_txid = if transaction.metadata.related_txids.len() > 0 {
            transaction.metadata.related_txids[0]
        } else {
            crate::boc::zero_bytes32()
        };
        let mut public_inputs: Vec<u64> = Vec::new();
        public_inputs.push(old_state.balance);
        public_inputs.push(new_state.balance);
        public_inputs.push(new_state.sequence);
        let timestamp = current_timestamp();
        let created_at = current_timestamp();
        Ok(BitcoinProofBundle {
            proof: BitcoinZkProof {
                proof_data: channel_proof,
                public_inputs,
                merkle_root: new_state.merkle_root,
                timestamp,
                btc_block_height: new_state.block_height,
                funding_txid,
                output_index: 0,
                htlc_script: Vec::new(),
                nullifier,
            },
            metadata: BitcoinProofMetadata {
                proof_type: BitcoinProofType::StateTransition,
                channel_id: new_state.channel_id,
                created_at,
                verified_at: None,
                btc_block_height: new_state.block_height,
                htlc_timelock: 0,
                commitment_nullifier: nullifier,
                merkle_root: new_state.merkle_root,
                height_bounds: (new_state.block_height, new_state.block_height + 6),
            },
        })
    }

    /// The proof bundle for an HTLC of a channel, whose proof bytes are
    /// `htlc_proof`: refused when the HTLC's expiry does not lie ahead (a
    /// zero timelock) or its amount is zero, or when its nullifier was used before (the generator
    /// then does not change); otherwise the nullifier is recorded. The public
    /// inputs are the amount and the timelock; the height bounds run from the
    /// channel's height to that height plus the timelock.
    pub fn generate_htlc_proof(
        &mut self,
        channel_state: &BitcoinChannelState,
        htlc_state: &HTLCState,
        preimage: Option<[u8; 32]>,
        htlc_proof: Vec<u8>,
    ) -> (r: Result<BitcoinProofBundle, ProofError>)
        requires
            channel_state.block_height + htlc_state.timelock <= u32::MAX,
        ensures
            !valid_htlc(*htlc_state, channel_state.block_height) ==> (r matches Err(e) && e == ProofError::InvalidState)
                && final(self).nullifiers() == old(self).nullifiers(),
            valid_htlc(*htlc_state, channel_state.block_height) && old(self).nullifiers().contains(
                spec_htlc_nullifier(*htlc_state),
            ) ==> (r matches Err(e) && e == ProofError::InvalidNullifier) && final(self).nullifiers() == old(self).nullifiers(),
            valid_htlc(*htlc_state, channel_state.block_height) && !old(self).nullifiers().contains(
                spec_htlc_nullifier(*htlc_state),
            ) ==> final(self).nullifiers() == old(self).nullifiers().insert(spec_htlc_nullifier(*htlc_state)) && (r matches Ok(
                b,
            ) && {
                &&& b.proof.proof_data@ == htlc_proof@
                &&& b.proof.public_inputs@ == seq![htlc_state.amount, htlc_state.timelock as u64]
                &&& b.proof.merkle_root == channel_state.merkle_root
                &&& b.proof.btc_block_height == channel_state.block_height
                &&& b.proof.funding_txid@ == crate::boc::zero_hash()
                &&& b.proof.output_index == 0
                &&& b.proof.htlc_script@.len() == 0
                &&& b.proof.nullifier@ == spec_htlc_nullifier(*htlc_state)
                &&& b.metadata.proof_type == BitcoinProofType::StateTransition
                &&& b.metadata.channel_id == channel_state.channel_id
                &&& b.metadata.verified_at is None
                &&& b.metadata.btc_block_height == channel_state.block_height
                &&& b.metadata.htlc_timelock == htlc_state.timelock
                &&& b.metadata.commitment_nullifier == b.proof.nullifier
                &&& b.metadata.merkle_root == channel_state.merkle_root
                &&& b.metadata.height_bounds == (
                    channel_state.block_height,
                    (channel_state.block_height + htlc_state.timelock) as u32,
                )
            }),
    {
        self.verify_htlc_state(htlc_state, channel_state.block_height)?;
        let nullifier = self.generate_htlc_nullifier(htlc_state);
        if !self.use_nullifier(nullifier) {
            proof {
                assert(old(self).nullifiers().insert(nullifier@) =~= old(self).nullifiers());
            }
            return Err(ProofError::InvalidNullifier);
        }
        let mut public_inputs: Vec<u64> = Vec::new();
        public_inputs.push(htlc_state.amount);
        public_inputs.push(htlc_state.timelock as u64);
        let timestamp = current_timestamp();
        let created_at = current_timestamp();
        Ok(BitcoinProofBundle {
            proof: BitcoinZkProof {
                proof_data: htlc_proof,
                public_inputs,
                merkle_root: channel_state.merkle_root,
                timestamp,
                btc_block_height: channel_state.block_height,
                funding_txid: crate::boc::zero_bytes32(),
                output_index: 0,
                htlc_script: Vec::new(),
                nullifier,
            },
            metadata: BitcoinProofMetadata {
                proof_type: BitcoinProofType::StateTransition,
                channel_id: channel_state.channel_id,
                created_at,
                verified_at: None,
                btc_block_height: channel_state.block_height,
                htlc_timelock: htlc_state.timelock,
                commitment_nullifier: nullifier,
                merkle_root: channel_state.merkle_root,
                height_bounds: (channel_state.block_height, channel_state.block_height + htlc_state.timelock),
            },
        })
    }
}

/// A nullifier is accepted once: after a state proof is produced, asking
/// again for the same new state is refused, and the nullifiers only grow.
pub proof fn lemma_nullifier_single_use(before: Set<Seq<u8>>, after: Set<Seq<u8>>, state: BitcoinChannelState)
    requires
        after == before.insert(spec_state_nullifier(state)),
    ensures
        after.contains(spec_state_nullifier(state)),
        before.subset_of(after),
{
}

} // verus!
