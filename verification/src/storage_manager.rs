use vstd::prelude::*;

use crate::boc::BOC;
use crate::errors::{SystemError, SystemErrorType};
use crate::kv::{lookup_first, position32, upsert32};

verus! {

/// Counts of a storage node's stores, retrievals and proof checks.
#[derive(Clone, Copy, Debug)]
pub struct StorageAndRetrievalMetrics {
    pub store_boc: u64,
    pub store_proof: u64,
    pub retrieve_boc: u64,
    pub retrieve_proof: u64,
    pub verification_count: u64,
    pub verification_success: u64,
    pub verification_failure: u64,
}

impl Default for StorageAndRetrievalMetrics {
    fn default() -> (r: Self)
        ensures
            r == (StorageAndRetrievalMetrics {
                store_boc: 0,
                store_proof: 0,
                retrieve_boc: 0,
                retrieve_proof: 0,
                verification_count: 0,
                verification_success: 0,
                verification_failure: 0,
            }),
    {
        StorageAndRetrievalMetrics {
            store_boc: 0,
            store_proof: 0,
            retrieve_boc: 0,
            retrieve_proof: 0,
            verification_count: 0,
            verification_success: 0,
            verification_failure: 0,
        }
    }
}

/// What a bag of cells holds, field by field, as plain sequences.
pub open spec fn boc_view(b: BOC) -> (Seq<Seq<u8>>, Seq<Seq<u8>>, Seq<Seq<u8>>, Option<[u8; 32]>) {
    (
        b.cells@.map_values(|c: Vec<u8>| c@),
        b.references@.map_values(|c: Vec<u8>| c@),
        b.roots@.map_values(|c: Vec<u8>| c@),
        b.hash,
    )
}

/// A copy of a list of byte lists.
pub fn copy_rows(v: &Vec<Vec<u8>>) -> (r: Vec<Vec<u8>>)
    ensures
        r@.map_values(|c: Vec<u8>| c@) == v@.map_values(|c: Vec<u8>| c@),
{
    let mut out: Vec<Vec<u8>> = Vec::new();
    let n = v.len();
    for i in 0..n
        invariant
            n == v@.len(),
            out@.len() == i,
            forall|k: int| 0 <= k < i ==> (#[trigger] out@[k])@ == v@[k]@,
    {
        let row = crate::btc::copy_bytes(&v[i]);
        out.push(row);
    }
    assert(out@.map_values(|c: Vec<u8>| c@) =~= v@.map_values(|c: Vec<u8>| c@));
    out
}

/// A copy of a bag of cells.
pub fn copy_boc(b: &BOC) -> (r: BOC)
    ensures
        boc_view(r) == boc_view(*b),
{
    BOC { cells: copy_rows(&b.cells), references: copy_rows(&b.references), roots: copy_rows(&b.roots), hash: b.hash }
}

/// The id a bag of cells is stored under: its hash, or all zeros.
pub open spec fn boc_id(b: BOC) -> [u8; 32] {
    match b.hash {
        Some(h) => h,
        None => crate::replication::array32_of(crate::boc::zero_hash()),
    }
}

/// Stores bags of cells and proofs, and gives them back, each step as its
/// switch allows, counting what is done. Proof checks are made by the proof
/// system, whose answer is handed in.
pub struct StorageAndRetrievalManager {
    stored_bocs: Vec<([u8; 32], BOC)>,
    stored_proofs: Vec<([u8; 32], Vec<u8>)>,
    metrics: StorageAndRetrievalMetrics,
    store_boc: bool,
    store_proof: bool,
    retrieve_boc: bool,
    retrieve_proof: bool,
    verify_proof: bool,
}

impl StorageAndRetrievalManager {
    /// The bag of cells stored under an id, as plain sequences.
    pub closed spec fn boc_at(&self, id: [u8; 32]) -> Option<(Seq<Seq<u8>>, Seq<Seq<u8>>, Seq<Seq<u8>>, Option<[u8; 32]>)> {
        match lookup_first(self.stored_bocs@, id) {
            Some(b) => Some(boc_view(b)),
            None => None,
        }
    }

    /// The proof stored under an id.
    pub closed spec fn proof_at(&self, id: [u8; 32]) -> Option<Seq<u8>> {
        match lookup_first(self.stored_proofs@, id) {
            Some(p) => Some(p@),
            None => None,
        }
    }

    /// The counts.
    pub closed spec fn metrics(&self) -> StorageAndRetrievalMetrics {
        self.metrics
    }

    /// The switches: store bags, store proofs, give back bags, give back
    /// proofs, check proofs.
    pub closed spec fn switches(&self) -> (bool, bool, bool, bool, bool) {
        (self.store_boc, self.store_proof, self.retrieve_boc, self.retrieve_proof, self.verify_proof)
    }

    /// A manager with nothing stored, zero counts and every switch on.
    pub fn new() -> (r: Self)
        ensures
            forall|id: [u8; 32]| #[trigger] r.boc_at(id) is None && r.proof_at(id) is None,
            r.switches() == (true, true, true, true, true),
            r.metrics() == (StorageAndRetrievalMetrics {
                store_boc: 0,
                store_proof: 0,
                retrieve_boc: 0,
                retrieve_proof: 0,
                verification_count: 0,
                verification_success: 0,
                verification_failure: 0,
            }),
    {
        StorageAndRetrievalManager {
            stored_bocs: Vec::new(),
            stored_proofs: Vec::new(),
            metrics: StorageAndRetrievalMetrics {
                store_boc: 0,
                store_proof: 0,
                retrieve_boc: 0,
                retrieve_proof: 0,
                verification_count: 0,
                verification_success: 0,
                verification_failure: 0,
            },
            store_boc: true,
            store_proof: true,
            retrieve_boc: true,
            retrieve_proof: true,
            verify_proof: true,
        }
    }

    /// Counts a proof check whose answer the proof system gave: refused
    /// while checks are off; otherwise the answer is passed on, counted as a
    /// success when it is `true` and as a failure otherwise. Only the
    /// counters a call raises need room.
    pub fn verify_proof(&mut self, answer: Result<bool, SystemError>) -> (r: Result<bool, SystemError>)
        requires
            old(self).switches().4 ==> old(self).metrics().verification_count < u64::MAX,
            old(self).switches().4 && (answer matches Ok(true)) ==> old(self).metrics().verification_success < u64::MAX,
            old(self).switches().4 && !(answer matches Ok(true)) ==> old(self).metrics().verification_failure
                < u64::MAX,
        ensures
            !old(self).switches().4 ==> (r matches Err(e) && e.error_type == SystemErrorType::OperationDisabled)
                && final(self).metrics() == old(self).metrics(),
            old(self).switches().4 ==> r == answer && final(self).metrics() == (StorageAndRetrievalMetrics {
                verification_count: (old(self).metrics().verification_count + 1) as u64,
                verification_success: (old(self).metrics().verification_success + if answer == Ok::<bool, SystemError>(
                    true,
                ) {
                    1int
                } else {
                    0int
                }) as u64,
                verification_failure: (old(self).metrics().verification_failure + if answer == Ok::<bool, SystemError>(
                    true,
                ) {
                    0int
                } else {
                    1int
                }) as u64,
                ..old(self).metrics()
            }),
            final(self).switches() == old(self).switches(),
            forall|id: [u8; 32]| #[trigger] final(self).boc_at(id) == old(self).boc_at(id),
            forall|id: [u8; 32]| #[trigger] final(self).proof_at(id) == old(self).proof_at(id),
    {
        if !self.verify_proof {
            return Err(SystemError::new(SystemErrorType::OperationDisabled, "Proof verification is disabled"));
        }
        self.metrics.verification_count = self.metrics.verification_count + 1;
        match answer {
            Ok(true) => {
                self.metrics.verification_success = self.metrics.verification_success + 1;
                Ok(true)
            },
            Ok(false) => {
                self.metrics.verification_failure = self.metrics.verification_failure + 1;
                Ok(false)
            },
            Err(e) => {
                self.metrics.verification_failure = self.metrics.verification_failure + 1;
                Err(e)
            },
        }
    }

    /// Stores a bag of cells under its hash and a proof under `proof_id`, as
    /// the switches allow: refused when both stores are off, or when proofs
    /// are checked and the check (its answer handed in) failed.
    pub fn store_data(&mut self, boc: BOC, proof_id: [u8; 32], proof: Vec<u8>, check: Result<bool, SystemError>) -> (r:
        Result<(), SystemError>)
        requires
            old(self).metrics().verification_count < u64::MAX,
            old(self).metrics().verification_success < u64::MAX,
            old(self).metrics().verification_failure < u64::MAX,
            old(self).metrics().store_boc < u64::MAX,
            old(self).metrics().store_proof < u64::MAX,
        ensures
            final(self).switches() == old(self).switches(),
            !old(self).switches().0 && !old(self).switches().1 ==> (r matches Err(e) && e.error_type
                == SystemErrorType::OperationDisabled) && final(self).metrics() == old(self).metrics(),
            (old(self).switches().0 || old(self).switches().1) && old(self).switches().4 && check is Err ==> r is Err,
            r is Ok ==> {
                &&& forall|id: [u8; 32]| #[trigger] final(self).boc_at(id) == if old(self).switches().0 && id == boc_id(
                    boc,
                ) {
                    Some(boc_view(boc))
                } else {
                    old(self).boc_at(id)
                }
                &&& forall|id: [u8; 32]| #[trigger] final(self).proof_at(id) == if old(self).switches().1 && id
                    == proof_id {
                    Some(proof@)
                } else {
                    old(self).proof_at(id)
                }
            },
            r is Ok <==> ((old(self).switches().0 || old(self).switches().1) && (old(self).switches().4 ==> check is Ok)),
    {
        if !self.store_boc && !self.store_proof {
            return Err(SystemError::new(SystemErrorType::OperationDisabled, "Both BOC and proof storage are disabled"));
        }
        let ghost s0 = *self;
        if self.verify_proof {
            match self.verify_proof(check) {
                Ok(_) => {},
                Err(e) => {
                    return Err(e);
                },
            }
        }
        let ghost s1 = *self;
        let ghost stored = boc;
        let ghost stored_proof = proof@;
        assert forall|x: [u8; 32]| #[trigger] s1.boc_at(x) == s0.boc_at(x) && s1.proof_at(x) == s0.proof_at(x) by {
            assert(s1.boc_at(x) == s0.boc_at(x));
            assert(s1.proof_at(x) == s0.proof_at(x));
        }
        if self.store_boc {
            let id = boc.hash();
            proof {
                if boc.hash is None {
                    crate::replication::lemma_array32_of(crate::boc::zero_hash(), id);
                }
            }
            upsert32(&mut self.stored_bocs, id, boc);
            self.metrics.store_boc = self.metrics.store_boc + 1;
        }
        let ghost s2 = *self;
        if self.store_proof {
            upsert32(&mut self.stored_proofs, proof_id, proof);
            self.metrics.store_proof = self.metrics.store_proof + 1;
        }
        proof {
            assert forall|x: [u8; 32]| #[trigger] self.boc_at(x) == if s0.store_boc && x == boc_id(stored) {
                Some(boc_view(stored))
            } else {
                s0.boc_at(x)
            } by {
                assert(s1.boc_at(x) == s0.boc_at(x));
                assert(self.stored_bocs@ == s2.stored_bocs@);
            }
            assert forall|x: [u8; 32]| #[trigger] self.proof_at(x) == if s0.store_proof && x == proof_id {
                Some(stored_proof)
            } else {
                s0.proof_at(x)
            } by {
                assert(s1.proof_at(x) == s0.proof_at(x));
                assert(s2.stored_proofs@ == s1.stored_proofs@);
            }
        }
        Ok(())
    }

    /// The bag of cells stored under an id: refused while giving back bags
    /// is off, or when none is stored there.
    pub fn retrieve_data(&mut self, boc_id: &[u8; 32]) -> (r: Result<BOC, SystemError>)
        requires
            old(self).metrics().retrieve_boc < u64::MAX,
        ensures
            !old(self).switches().2 ==> (r matches Err(e) && e.error_type == SystemErrorType::OperationDisabled),
            old(self).switches().2 && old(self).boc_at(*boc_id) is None ==> (r matches Err(e) && e.error_type
                == SystemErrorType::StorageError),
            old(self).switches().2 && old(self).boc_at(*boc_id) is Some ==> (r matches Ok(b) && Some(boc_view(b))
                == old(self).boc_at(*boc_id)),
            r is Ok ==> final(self).metrics() == (StorageAndRetrievalMetrics {
                retrieve_boc: (old(self).metrics().retrieve_boc + 1) as u64,
                ..old(self).metrics()
            }),
            r is Err ==> final(self).metrics() == old(self).metrics(),
            final(self).switches() == old(self).switches(),
            forall|id: [u8; 32]| #[trigger] final(self).boc_at(id) == old(self).boc_at(id),
            forall|id: [u8; 32]| #[trigger] final(self).proof_at(id) == old(self).proof_at(id),
    {
        if !self.retrieve_boc {
            return Err(SystemError::new(SystemErrorType::OperationDisabled, "BOC retrieval is disabled"));
        }
        match position32(&self.stored_bocs, boc_id) {
            Some(i) => {
                let b = copy_boc(&self.stored_bocs[i].1);
                self.metrics.retrieve_boc = self.metrics.retrieve_boc + 1;
                Ok(b)
            },
            None => Err(SystemError::new(SystemErrorType::StorageError, "BOC not found")),
        }
    }

    /// The proof stored under an id: refused while giving back proofs is
    /// off, or when none is stored there.
    pub fn retrieve_proof(&mut self, proof_id: &[u8; 32]) -> (r: Result<Vec<u8>, SystemError>)
        requires
            old(self).metrics().retrieve_proof < u64::MAX,
        ensures
            !old(self).switches().3 ==> (r matches Err(e) && e.error_type == SystemErrorType::OperationDisabled),
            old(self).switches().3 && old(self).proof_at(*proof_id) is None ==> (r matches Err(e) && e.error_type
                == SystemErrorType::StorageError),
            old(self).switches().3 && old(self).proof_at(*proof_id) is Some ==> (r matches Ok(p) && Some(p@)
                == old(self).proof_at(*proof_id)),
            r is Ok ==> final(self).metrics() == (StorageAndRetrievalMetrics {
                retrieve_proof: (old(self).metrics().retrieve_proof + 1) as u64,
                ..old(self).metrics()
            }),
            r is Err ==> final(self).metrics() == old(self).metrics(),
            final(self).switches() == old(self).switches(),
            forall|id: [u8; 32]| #[trigger] final(self).boc_at(id) == old(self).boc_at(id),
            forall|id: [u8; 32]| #[trigger] final(self).proof_at(id) == old(self).proof_at(id),
    {
        if !self.retrieve_proof {
            return Err(SystemError::new(SystemErrorType::OperationDisabled, "Proof retrieval is disabled"));
        }
        match position32(&self.stored_proofs, proof_id) {
            Some(i) => {
                let p = crate::btc::copy_bytes(&self.stored_proofs[i].1);
                self.metrics.retrieve_proof = self.metrics.retrieve_proof + 1;
                Ok(p)
            },
            None => Err(SystemError::new(SystemErrorType::StorageError, "Proof not found")),
        }
    }

    /// The counts.
    pub fn get_metrics(&self) -> (r: StorageAndRetrievalMetrics)
        ensures
            r == self.metrics(),
    {
        self.metrics
    }

    /// Replaces the counts.
    pub fn set_metrics(&mut self, metrics: StorageAndRetrievalMetrics)
        ensures
            final(self).metrics() == metrics,
            final(self).switches() == old(self).switches(),
            forall|id: [u8; 32]| #[trigger] final(self).boc_at(id) == old(self).boc_at(id),
            forall|id: [u8; 32]| #[trigger] final(self).proof_at(id) == old(self).proof_at(id),
    {
        self.metrics = metrics;
    }

    /// Turns proof checks on or off.
    pub fn set_verify_proof(&mut self, verify_proof: bool)
        ensures
            final(self).switches() == (old(self).switches().0, old(self).switches().1, old(self).switches().2, old(
                self,
            ).switches().3, verify_proof),
            final(self).metrics() == old(self).metrics(),
            forall|id: [u8; 32]| #[trigger] final(self).boc_at(id) == old(self).boc_at(id),
            forall|id: [u8; 32]| #[trigger] final(self).proof_at(id) == old(self).proof_at(id),
    {
        self.verify_proof = verify_proof;
    }

    /// Turns storing bags of cells on or off.
    pub fn set_store_boc(&mut self, store_boc: bool)
        ensures
            final(self).switches() == (store_boc, old(self).switches().1, old(self).switches().2, old(
                self,
            ).switches().3, old(self).switches().4),
            final(self).metrics() == old(self).metrics(),
            forall|id: [u8; 32]| #[trigger] final(self).boc_at(id) == old(self).boc_at(id),
            forall|id: [u8; 32]| #[trigger] final(self).proof_at(id) == old(self).proof_at(id),
    {
        self.store_boc = store_boc;
    }

    /// Turns storing proofs on or off.
    pub fn set_store_proof(&mut self, store_proof: bool)
        ensures
            final(self).switches() == (old(self).switches().0, store_proof, old(self).switches().2, old(
                self,
            ).switches().3, old(self).switches().4),
            final(self).metrics() == old(self).metrics(),
            forall|id: [u8; 32]| #[trigger] final(self).boc_at(id) == old(self).boc_at(id),
            forall|id: [u8; 32]| #[trigger] final(self).proof_at(id) == old(self).proof_at(id),
    {
        self.store_proof = store_proof;
    }

    /// Turns giving back bags of cells on or off.
    pub fn set_retrieve_boc(&mut self, retrieve_boc: bool)
        ensures
            final(self).switches() == (old(self).switches().0, old(self).switches().1, retrieve_boc, old(
                self,
            ).switches().3, old(self).switches().4),
            final(self).metrics() == old(self).metrics(),
            forall|id: [u8; 32]| #[trigger] final(self).boc_at(id) == old(self).boc_at(id),
            forall|id: [u8; 32]| #[trigger] final(self).proof_at(id) == old(self).proof_at(id),
    {
        self.retrieve_boc = retrieve_boc;
    }

    /// Turns giving back proofs on or off.
    pub fn set_retrieve_proof(&mut self, retrieve_proof: bool)
        ensures
            final(self).switches() == (old(self).switches().0, old(self).switches().1, old(self).switches().2, retrieve_proof, old(
                self,
            ).switches().4),
            final(self).metrics() == old(self).metrics(),
            forall|id: [u8; 32]| #[trigger] final(self).boc_at(id) == old(self).boc_at(id),
            forall|id: [u8; 32]| #[trigger] final(self).proof_at(id) == old(self).proof_at(id),
    {
        self.retrieve_proof = retrieve_proof;
    }
}

/// What a store writes, a retrieval reads back: once a bag of cells is
/// stored (with bag storage on), it is what is held under its id; once a
/// proof is stored (with proof storage on), it is what is held under its
/// id.
pub proof fn lemma_read_after_store(
    before: StorageAndRetrievalManager,
    after: StorageAndRetrievalManager,
    boc: BOC,
    proof_id: [u8; 32],
    proof: Seq<u8>,
    id: [u8; 32],
)
    requires
        forall|x: [u8; 32]| #[trigger] after.boc_at(x) == if before.switches().0 && x == boc_id(boc) {
            Some(boc_view(boc))
        } else {
            before.boc_at(x)
        },
        forall|x: [u8; 32]| #[trigger] after.proof_at(x) == if before.switches().1 && x == proof_id {
            Some(proof)
        } else {
            before.proof_at(x)
        },
    ensures
        before.switches().0 ==> after.boc_at(boc_id(boc)) == Some(boc_view(boc)),
        before.switches().1 ==> after.proof_at(proof_id) == Some(proof),
        id != boc_id(boc) ==> after.boc_at(id) == before.boc_at(id),
        id != proof_id ==> after.proof_at(id) == before.proof_at(id),
{
    assert(after.boc_at(boc_id(boc)) == if before.switches().0 { Some(boc_view(boc)) } else { before.boc_at(boc_id(boc)) });
    assert(after.proof_at(proof_id) == if before.switches().1 { Some(proof) } else { before.proof_at(proof_id) });
    assert(after.boc_at(id) == if before.switches().0 && id == boc_id(boc) { Some(boc_view(boc)) } else { before.boc_at(id) });
    assert(after.proof_at(id) == if before.switches().1 && id == proof_id { Some(proof) } else { before.proof_at(id) });
}

} // verus!
