use vstd::prelude::*;

use crate::errors::{SystemError, SystemErrorType};
use crate::replication::StateManager;

verus! {

/// Counts of consistency checks and of how they failed.
#[derive(Clone, Copy, Debug)]
pub struct ConsistencyMetrics {
    pub total_consistency_checks: u64,
    pub failed_consistency_checks: u64,
    pub state_mismatches: u64,
    pub proof_failures: u64,
}

/// A summary of the checks made: valid while no check failed.
#[derive(Clone, Copy, Debug)]
pub struct ConsistencyState {
    pub total_checks: u64,
    pub failed_checks: u64,
    pub state_mismatches: u64,
    pub proof_failures: u64,
    pub is_valid: bool,
}

/// What checks a proof of a state against public inputs; implemented by the
/// proof system in use.
pub trait VerifyProof {
    fn verify_proof(&self, proof: &[u8], public_inputs: &Vec<Vec<u8>>) -> Result<bool, SystemError>;
}

/// Checks that a stored state is the one expected and that its proof holds,
/// and counts the outcomes.
pub struct ConsistencyValidator {
    metrics: ConsistencyMetrics,
    force_verification_error: bool,
}

/// The counts with one more state mismatch.
pub open spec fn with_mismatch(m: ConsistencyMetrics) -> ConsistencyMetrics {
    ConsistencyMetrics { state_mismatches: (m.state_mismatches + 1) as u64, ..m }
}

/// The counts with one more successful check.
pub open spec fn with_success(m: ConsistencyMetrics) -> ConsistencyMetrics {
    ConsistencyMetrics { total_consistency_checks: (m.total_consistency_checks + 1) as u64, ..m }
}

/// The counts with one more proof failure.
pub open spec fn with_proof_failure(m: ConsistencyMetrics) -> ConsistencyMetrics {
    ConsistencyMetrics { proof_failures: (m.proof_failures + 1) as u64, ..m }
}

/// None of the counts is at its limit.
pub open spec fn room_to_count(m: ConsistencyMetrics) -> bool {
    &&& m.total_consistency_checks < u64::MAX
    &&& m.state_mismatches < u64::MAX
    &&& m.proof_failures < u64::MAX
}

/// The counts after the proof checker answered `res`: one more successful
/// check for a valid proof, one more proof failure otherwise.
pub open spec fn settled_metrics(m: ConsistencyMetrics, res: Result<bool, SystemError>) -> ConsistencyMetrics {
    if res matches Ok(true) {
        with_success(m)
    } else {
        with_proof_failure(m)
    }
}

/// `res` is an answer the proof checker can give for `proof` with the state
/// hash `h` as its one public input.
pub open spec fn checker_answer<P: VerifyProof>(prover: &P, proof: &[u8], h: [u8; 32], res: Result<bool, SystemError>) -> bool {
    exists|inputs: Vec<Vec<u8>>|
        #[trigger] call_ensures(P::verify_proof, (prover, proof, &inputs), res) && inputs@.len() == 1 && inputs@[0]@ == h@
}

/// What a consistency check of `h` with `proof` against the expected state
/// bytes gives, from counts `m` to counts `m2`: refused while failures are
/// forced (counts kept), or when the hash is unknown (a mismatch) or no
/// current state is stored (counts kept); `false` when the stored bytes
/// differ (a mismatch); otherwise the checker's answer for the proof with
/// the state hash as its public input, counted as `settled_metrics` says.
pub open spec fn consistency_outcome<P: VerifyProof>(
    m: ConsistencyMetrics,
    forced: bool,
    states: StateManager,
    prover: &P,
    proof: &[u8],
    h: [u8; 32],
    expected: Seq<u8>,
    r: Result<bool, SystemError>,
    m2: ConsistencyMetrics,
) -> bool {
    if forced {
        (r matches Err(e) && e.error_type == SystemErrorType::VerificationError) && m2 == m
    } else if states.level(h) is None {
        (r matches Err(e) && e.error_type == SystemErrorType::InvalidState) && m2 == with_mismatch(m)
    } else if !(states.root().hash is Some && states.root().data is Some) {
        (r matches Err(e) && e.error_type == SystemErrorType::StorageError) && m2 == m
    } else if states.root().data->0@ != expected {
        r == Ok::<bool, SystemError>(false) && m2 == with_mismatch(m)
    } else {
        checker_answer(prover, proof, h, r) && m2 == settled_metrics(m, r)
    }
}

/// The bytes of a list of hashes laid end to end.
pub open spec fn hashes_bytes(hs: Seq<[u8; 32]>) -> Seq<u8>
    decreases hs.len(),
{
    if hs.len() == 0 {
        Seq::empty()
    } else {
        hashes_bytes(hs.drop_last()) + hs.last()@
    }
}

impl ConsistencyValidator {
    /// The counts.
    pub closed spec fn metrics(&self) -> ConsistencyMetrics {
        self.metrics
    }

    /// Whether every check is made to fail.
    pub closed spec fn forced(&self) -> bool {
        self.force_verification_error
    }

    /// A validator with zero counts that does not force failures.
    pub fn new() -> (r: Self)
        ensures
            r.metrics() == (ConsistencyMetrics {
                total_consistency_checks: 0,
                failed_consistency_checks: 0,
                state_mismatches: 0,
                proof_failures: 0,
            }),
            !r.forced(),
    {
        ConsistencyValidator {
            metrics: ConsistencyMetrics {
                total_consistency_checks: 0,
                failed_consistency_checks: 0,
                state_mismatches: 0,
                proof_failures: 0,
            },
            force_verification_error: false,
        }
    }

    /// Makes every later check fail, or stops doing so.
    pub fn set_force_verification_error(&mut self, value: bool)
        ensures
            final(self).forced() == value,
            final(self).metrics() == old(self).metrics(),
    {
        self.force_verification_error = value;
    }

    /// Counts what the proof check answered and passes it on: a valid proof
    /// counts a successful check; an invalid proof or a failed check counts a
    /// proof failure.
    pub fn settle_proof_result(&mut self, result: Result<bool, SystemError>) -> (r: Result<bool, SystemError>)
        requires
            room_to_count(old(self).metrics()),
        ensures
            r == result,
            final(self).forced() == old(self).forced(),
            result matches Ok(true) ==> final(self).metrics() == with_success(old(self).metrics()),
            !(result matches Ok(true)) ==> final(self).metrics() == with_proof_failure(old(self).metrics()),
    {
        match result {
            Ok(is_valid) => {
                if is_valid {
                    self.metrics.total_consistency_checks = self.metrics.total_consistency_checks + 1;
                    Ok(true)
                } else {
                    self.metrics.proof_failures = self.metrics.proof_failures + 1;
                    Ok(false)
                }
            },
            Err(e) => {
                self.metrics.proof_failures = self.metrics.proof_failures + 1;
                Err(e)
            },
        }
    }

    /// Checks a state: refused while failures are forced, or when the state
    /// hash is unknown (a mismatch) or no current state is stored; `false`
    /// when the stored state's bytes differ from the expected ones (a
    /// mismatch); otherwise what the proof check answers for the proof with
    /// the state hash as its public input, counted as `settle_proof_result`
    /// does.
    pub fn validate_consistency<P: VerifyProof>(
        &mut self,
        states: &StateManager,
        prover: &P,
        state_hash: [u8; 32],
        proof: &[u8],
        expected_state: &Vec<u8>,
    ) -> (r: Result<bool, SystemError>)
        requires
            room_to_count(old(self).metrics()),
        ensures
            final(self).forced() == old(self).forced(),
            consistency_outcome(
                old(self).metrics(),
                old(self).forced(),
                *states,
                prover,
                proof,
                state_hash,
                expected_state@,
                r,
                final(self).metrics(),
            ),
    {
        if self.force_verification_error {
            return Err(SystemError::new(SystemErrorType::VerificationError, "Forced verification error"));
        }
        if !states.verify_state(state_hash) {
            self.metrics.state_mismatches = self.metrics.state_mismatches + 1;
            return Err(SystemError::new(SystemErrorType::InvalidState, "State hash does not exist in state manager"));
        }
        let stored = match states.get_current_state() {
            Ok(s) => s,
            Err(_) => {
                return Err(SystemError::new(SystemErrorType::StorageError, "Failed to get state"));
            },
        };
        if !crate::wallet::bytes_eq(&stored, expected_state) {
            self.metrics.state_mismatches = self.metrics.state_mismatches + 1;
            return Ok(false);
        }
        let mut public_inputs: Vec<Vec<u8>> = Vec::new();
        let mut hash_bytes: Vec<u8> = Vec::new();
        crate::hashing::append_bytes(&mut hash_bytes, state_hash.as_slice());
        public_inputs.push(hash_bytes);
        let result = prover.verify_proof(proof, &public_inputs);
        proof {
            assert(public_inputs@[0]@ == state_hash@);
            assert(call_ensures(P::verify_proof, (prover, proof, &public_inputs), result));
        }
        self.settle_proof_result(result)
    }

    /// Checks a serialized state against what the state manager holds for
    /// its hash: refused while failures are forced, when its hash is unknown
    /// or has no proof; otherwise `validate_consistency` with the manager's
    /// proof, its hashes laid end to end.
    pub fn verify_consistency<P: VerifyProof>(&mut self, states: &StateManager, prover: &P, serialized_state: &Vec<u8>) -> (r:
        Result<bool, SystemError>)
        requires
            room_to_count(old(self).metrics()),
        ensures
            final(self).forced() == old(self).forced(),
            old(self).forced() ==> (r matches Err(e) && e.error_type == SystemErrorType::VerificationError)
                && final(self).metrics() == old(self).metrics(),
            !old(self).forced() && (states.level(crate::replication::hash_of(serialized_state@)) is None
                || states.proof_for(crate::replication::hash_of(serialized_state@)) is None) ==> r is Err
                && final(self).metrics() == old(self).metrics(),
            !old(self).forced() && states.proof_for(crate::replication::hash_of(serialized_state@)) is Some
                ==> exists|proof: &[u8]|
                #![trigger proof@]
                proof@ == hashes_bytes(states.proof_for(crate::replication::hash_of(serialized_state@))->0)
                    && consistency_outcome(
                    old(self).metrics(),
                    false,
                    *states,
                    prover,
                    proof,
                    crate::replication::hash_of(serialized_state@),
                    serialized_state@,
                    r,
                    final(self).metrics(),
                ),
    {
        if self.force_verification_error {
            return Err(SystemError::new(SystemErrorType::VerificationError, "Forced verification error"));
        }
        let state_hash = crate::hashing::sha256_digest(serialized_state.as_slice());
        proof {
            crate::replication::lemma_hash_of(serialized_state@, state_hash);
        }
        if states.get_state_type(state_hash).is_none() {
            return Err(SystemError::new(SystemErrorType::InvalidState, "Failed to get state hash"));
        }
        let proof = match states.generate_proof(state_hash) {
            Ok(p) => p,
            Err(e) => {
                return Err(e);
            },
        };
        let mut proof_bytes: Vec<u8> = Vec::new();
        let n = proof.len();
        for i in 0..n
            invariant
                n == proof@.len(),
                proof_bytes@ == hashes_bytes(proof@.take(i as int)),
        {
            assert(proof@.take(i + 1).drop_last() == proof@.take(i as int));
            crate::hashing::append_bytes(&mut proof_bytes, proof[i].as_slice());
        }
        assert(proof@.take(n as int) == proof@);
        let slice = proof_bytes.as_slice();
        assert(slice@ == hashes_bytes(proof@));
        self.validate_consistency(states, prover, state_hash, slice, serialized_state)
    }

    /// The summary of the checks so far.
    pub fn get_state(&self) -> (r: Result<ConsistencyState, SystemError>)
        ensures
            r == Ok::<ConsistencyState, SystemError>(
                ConsistencyState {
                    total_checks: self.metrics().total_consistency_checks,
                    failed_checks: self.metrics().failed_consistency_checks,
                    state_mismatches: self.metrics().state_mismatches,
                    proof_failures: self.metrics().proof_failures,
                    is_valid: self.metrics().failed_consistency_checks == 0,
                },
            ),
    {
        Ok(
            ConsistencyState {
                total_checks: self.metrics.total_consistency_checks,
                failed_checks: self.metrics.failed_consistency_checks,
                state_mismatches: self.metrics.state_mismatches,
                proof_failures: self.metrics.proof_failures,
                is_valid: self.metrics.failed_consistency_checks == 0,
            },
        )
    }

    /// The counts.
    pub fn get_metrics(&self) -> (r: ConsistencyMetrics)
        ensures
            r == self.metrics(),
    {
        self.metrics
    }
}

} // verus!
