use vstd::prelude::*;

use crate::boc::BOC;
use crate::errors::SystemError;
use crate::kv::{lemma_lookup_first_absent, lemma_lookup_first_found, lemma_lookup_first_push, lemma_lookup_first_update, lookup_first};

verus! {

/// Least number of responses a verification round needs.
pub const MIN_RESPONSE_THRESHOLD: u64 = 1;

/// Least time between verification rounds, in milliseconds.
pub const MIN_RESPONSE_INTERVAL: u64 = 1000;

/// Most responses a round looks at.
pub const MAX_RESPONSE_SIZE: usize = 1048576;

/// How many times a response is tried before giving up.
pub const MAX_VERIFICATION_ATTEMPTS: u32 = 3;

/// Base of the back-off between tries, in milliseconds.
pub const DEFAULT_BACKOFF_MS: u64 = 1000;

/// Least number of challenges.
pub const MIN_CHALLENGE_THRESHOLD: u64 = 1;

/// Least time between challenge rounds, in milliseconds.
pub const MIN_CHALLENGE_INTERVAL: u64 = 1000;

/// Why the response manager refused.
#[derive(Clone, Debug)]
pub enum ResponseManagerError {
    InvalidThreshold(String),
    InvalidInterval(String),
    VerificationInProgress,
    StorageError(SystemError),
    InvalidResponse(String),
    ProofVerificationFailed,
}

/// Counts of verification rounds and the settings they ran with.
#[derive(Clone, Copy, Debug)]
pub struct VerificationMetrics {
    pub total_verifications: u64,
    pub successful_verifications: u64,
    pub failed_verifications: u64,
    pub response_threshold: u64,
    pub response_interval: u64,
}

/// What to do after a response failed to verify.
#[derive(Clone, Copy, Debug, PartialEq, Eq, Structural)]
pub enum RetryDecision {
    /// Wait this many milliseconds, then try again.
    RetryAfter(u64),
    /// Stop: the response failed too often.
    GiveUp,
}

/// The decisions of the storage node's response verification: when a round
/// may start, which responses it checks, how often a response is retried,
/// and how the rounds are counted. Timers and proof checks run outside.
pub struct ResponseManager {
    node_id: [u8; 32],
    response_threshold: u64,
    response_interval: u64,
    is_verifying: bool,
    metrics: VerificationMetrics,
}

/// The responses a round checks: the cells of 32 bytes, in order.
pub open spec fn response_cells(cells: Seq<Vec<u8>>) -> Seq<Seq<u8>>
    decreases cells.len(),
{
    if cells.len() == 0 {
        Seq::empty()
    } else if cells.last()@.len() == 32 {
        response_cells(cells.drop_last()).push(cells.last()@)
    } else {
        response_cells(cells.drop_last())
    }
}

impl ResponseManager {
    /// Whether a verification loop is running.
    pub closed spec fn verifying(&self) -> bool {
        self.is_verifying
    }

    /// The counters.
    pub closed spec fn metrics(&self) -> VerificationMetrics {
        self.metrics
    }

    /// Least number of responses a round acts on.
    pub closed spec fn threshold(&self) -> u64 {
        self.response_threshold
    }

    /// Time between rounds, in milliseconds.
    pub closed spec fn interval(&self) -> u64 {
        self.response_interval
    }

    /// A manager for node `node_id`: refused when the threshold is below one
    /// or the interval below a second; otherwise idle with zero counts.
    pub fn create(node_id: [u8; 32], response_threshold: u64, response_interval: u64) -> (r: Result<
        Self,
        ResponseManagerError,
    >)
        ensures
            response_threshold < MIN_RESPONSE_THRESHOLD ==> (r matches Err(e) && e is InvalidThreshold),
            response_threshold >= MIN_RESPONSE_THRESHOLD && response_interval < MIN_RESPONSE_INTERVAL ==> (r matches Err(
                e,
            ) && e is InvalidInterval),
            response_threshold >= MIN_RESPONSE_THRESHOLD && response_interval >= MIN_RESPONSE_INTERVAL ==> (r matches Ok(
                m,
            ) && {
                &&& !m.verifying()
                &&& m.threshold() == response_threshold
                &&& m.interval() == response_interval
                &&& m.metrics() == (VerificationMetrics {
                    total_verifications: 0,
                    successful_verifications: 0,
                    failed_verifications: 0,
                    response_threshold,
                    response_interval,
                })
            }),
    {
        if response_threshold < MIN_RESPONSE_THRESHOLD {
            return Err(ResponseManagerError::InvalidThreshold("Response threshold must be at least 1".to_owned()));
        }
        if response_interval < MIN_RESPONSE_INTERVAL {
            return Err(ResponseManagerError::InvalidInterval("Response interval must be at least 1000ms".to_owned()));
        }
        Ok(ResponseManager {
            node_id,
            response_threshold,
            response_interval,
            is_verifying: false,
            metrics: VerificationMetrics {
                total_verifications: 0,
                successful_verifications: 0,
                failed_verifications: 0,
                response_threshold,
                response_interval,
            },
        })
    }

    /// Starts the verification loop; refused while one runs.
    pub fn start_verification(&mut self) -> (r: Result<(), ResponseManagerError>)
        ensures
            old(self).verifying() ==> (r matches Err(e) && e is VerificationInProgress),
            !old(self).verifying() ==> r is Ok,
            final(self).verifying(),
            final(self).metrics() == old(self).metrics(),
            final(self).threshold() == old(self).threshold(),
            final(self).interval() == old(self).interval(),
    {
        if self.is_verifying {
            return Err(ResponseManagerError::VerificationInProgress);
        }
        self.is_verifying = true;
        Ok(())
    }

    /// Stops the verification loop.
    pub fn stop_verification(&mut self)
        ensures
            !final(self).verifying(),
            final(self).metrics() == old(self).metrics(),
            final(self).threshold() == old(self).threshold(),
            final(self).interval() == old(self).interval(),
    {
        self.is_verifying = false;
    }

    /// Whether the verification loop runs.
    pub fn is_currently_verifying(&self) -> (r: bool)
        ensures
            r == self.verifying(),
    {
        self.is_verifying
    }

    /// Counts a finished round, as a success or a failure.
    pub fn record_round(&mut self, succeeded: bool)
        requires
            old(self).metrics().total_verifications < u64::MAX,
            old(self).metrics().successful_verifications < u64::MAX,
            old(self).metrics().failed_verifications < u64::MAX,
        ensures
            final(self).metrics().total_verifications == old(self).metrics().total_verifications + 1,
            succeeded ==> final(self).metrics().successful_verifications == old(self).metrics().successful_verifications + 1
                && final(self).metrics().failed_verifications == old(self).metrics().failed_verifications,
            !succeeded ==> final(self).metrics().failed_verifications == old(self).metrics().failed_verifications + 1
                && final(self).metrics().successful_verifications == old(self).metrics().successful_verifications,
            final(self).metrics().response_threshold == old(self).metrics().response_threshold,
            final(self).metrics().response_interval == old(self).metrics().response_interval,
            final(self).verifying() == old(self).verifying(),
            final(self).threshold() == old(self).threshold(),
            final(self).interval() == old(self).interval(),
    {
        self.metrics.total_verifications = self.metrics.total_verifications + 1;
        if succeeded {
            self.metrics.successful_verifications = self.metrics.successful_verifications + 1;
        } else {
            self.metrics.failed_verifications = self.metrics.failed_verifications + 1;
        }
    }

    /// How long to wait before the next round, when a round took
    /// `elapsed_ms`: the rest of the interval, or nothing once it has passed.
    pub fn next_delay(&self, elapsed_ms: u64) -> (r: Option<u64>)
        ensures
            elapsed_ms < self.interval() ==> r == Some((self.interval() - elapsed_ms) as u64),
            elapsed_ms >= self.interval() ==> r is None,
    {
        if elapsed_ms < self.response_interval {
            Some(self.response_interval - elapsed_ms)
        } else {
            None
        }
    }

    /// The responses a round checks in a retrieved bag of cells: refused when
    /// it holds more cells than a round may look at; none when it holds fewer
    /// than the threshold; otherwise the cells of exactly 32 bytes, in order.
    pub fn select_responses(&self, boc: &BOC) -> (r: Result<Vec<[u8; 32]>, SystemError>)
        ensures
            boc.cells@.len() > MAX_RESPONSE_SIZE ==> r is Err,
            boc.cells@.len() <= MAX_RESPONSE_SIZE && boc.cells@.len() < self.threshold() ==> (r matches Ok(v) && v@.len()
                == 0),
            boc.cells@.len() <= MAX_RESPONSE_SIZE && boc.cells@.len() >= self.threshold() ==> (r matches Ok(v)
                && v@.map_values(|a: [u8; 32]| a@) == response_cells(boc.cells@)),
    {
        if boc.cells.len() > MAX_RESPONSE_SIZE {
            return Err(
                SystemError::new(crate::errors::SystemErrorType::InvalidInput, "Response size exceeds maximum allowed"),
            );
        }
        let mut responses: Vec<[u8; 32]> = Vec::new();
        if (boc.cells.len() as u64) < self.response_threshold {
            return Ok(responses);
        }
        let n = boc.cells.len();
        for i in 0..n
            invariant
                n == boc.cells@.len(),
                responses@.map_values(|a: [u8; 32]| a@) == response_cells(boc.cells@.take(i as int)),
        {
            let cell = &boc.cells[i];
            assert(boc.cells@.take(i + 1).drop_last() == boc.cells@.take(i as int));
            let ghost before = responses@;
            if cell.len() == 32 {
                let mut a = crate::boc::zero_bytes32();
                let mut j: usize = 0;
                while j < 32
                    invariant
                        j <= 32,
                        cell@.len() == 32,
                        a@.len() == 32,
                        forall|k: int| 0 <= k < j ==> a@[k] == cell@[k],
                    decreases 32 - j,
                {
                    a[j] = cell[j];
                    j = j + 1;
                }
                assert(a@ =~= cell@);
                responses.push(a);
                assert(responses@.map_values(|x: [u8; 32]| x@) =~= before.map_values(|x: [u8; 32]| x@).push(a@));
            }
        }
        assert(boc.cells@.take(n as int) == boc.cells@);
        Ok(responses)
    }

    /// The counters.
    pub fn get_metrics(&self) -> (r: VerificationMetrics)
        ensures
            r == self.metrics(),
    {
        self.metrics
    }
}

/// What to do after the `attempts`-th failed try of a response: give up at
/// the third; otherwise wait 1000 * 2^attempts milliseconds.
pub open spec fn spec_retry(attempts: u32) -> RetryDecision {
    if attempts >= MAX_VERIFICATION_ATTEMPTS {
        RetryDecision::GiveUp
    } else {
        RetryDecision::RetryAfter((DEFAULT_BACKOFF_MS * vstd::arithmetic::power2::pow2(attempts as nat)) as u64)
    }
}

/// What to do after the `attempts`-th failed try of a response.
pub fn after_failed_attempt(attempts: u32) -> (r: RetryDecision)
    requires
        attempts >= 1,
    ensures
        r == spec_retry(attempts),
{
    if attempts >= MAX_VERIFICATION_ATTEMPTS {
        return RetryDecision::GiveUp;
    }
    proof {
        vstd::arithmetic::power2::lemma2_to64();
    }
    if attempts == 1 {
        RetryDecision::RetryAfter(2000)
    } else {
        RetryDecision::RetryAfter(4000)
    }
}

/// Where a storage challenge stands.
#[derive(Clone, Copy, Debug, PartialEq, Eq, Structural)]
pub enum ChallengeStatus {
    Pending,
    Completed,
    Failed,
    TimedOut,
}

/// A challenge made to a node about a piece of data, with its start (in
/// milliseconds since the epoch), its timeout and its status.
#[derive(Clone, Copy, Debug)]
pub struct ChallengeDetails {
    pub node_id: [u8; 32],
    pub data_id: [u8; 32],
    pub start_time: u64,
    pub timeout: u64,
    pub status: ChallengeStatus,
}

/// A record of a challenge made.
#[derive(Clone, Copy, Debug)]
pub struct ChallengeRecord {
    pub node_id: [u8; 32],
    pub data_id: [u8; 32],
    pub timestamp: u64,
}

/// Why the challenge manager refused.
#[derive(Clone, Debug)]
pub enum ChallengeManagerError {
    InvalidThreshold(String),
    InvalidInterval(String),
    StorageError(SystemError),
    NetworkError(String),
    LockError(String),
}

/// No two entries share a node id.
pub open spec fn unique_nodes(s: Seq<([u8; 32], ChallengeDetails)>) -> bool {
    forall|i: int, j: int| 0 <= i < s.len() && 0 <= j < s.len() && i != j ==> s[i].0 != s[j].0
}

/// The list without its first `x`.
pub open spec fn remove_first(s: Seq<[u8; 32]>, x: [u8; 32]) -> Seq<[u8; 32]>
    decreases s.len(),
{
    if s.len() == 0 {
        s
    } else if s[0] == x {
        s.subrange(1, s.len() as int)
    } else {
        seq![s[0]] + remove_first(s.subrange(1, s.len() as int), x)
    }
}

/// A pending challenge whose timeout has run out at `now`.
pub open spec fn expired(d: ChallengeDetails, now: u64) -> bool {
    d.status == ChallengeStatus::Pending && now >= d.start_time && now - d.start_time >= d.timeout
}

/// The nodes of a list of entries whose pending challenge has run out at
/// `now`, in list order.
pub open spec fn expired_nodes_of(s: Seq<([u8; 32], ChallengeDetails)>, now: u64) -> Seq<[u8; 32]>
    decreases s.len(),
{
    if s.len() == 0 {
        Seq::empty()
    } else if expired(s.last().1, now) {
        expired_nodes_of(s.drop_last(), now).push(s.last().0)
    } else {
        expired_nodes_of(s.drop_last(), now)
    }
}

/// The list with the first occurrence of each of `xs` taken out, one after
/// the other.
pub open spec fn remove_each(s: Seq<[u8; 32]>, xs: Seq<[u8; 32]>) -> Seq<[u8; 32]>
    decreases xs.len(),
{
    if xs.len() == 0 {
        s
    } else {
        remove_first(remove_each(s, xs.drop_last()), xs.last())
    }
}

/// The challenges a storage node makes, and which are still active.
pub struct ChallengeManager {
    challenge_fee: u64,
    challenge_threshold: u64,
    challenge_interval: u64,
    active_challenges: Vec<[u8; 32]>,
    challenge_details: Vec<([u8; 32], ChallengeDetails)>,
}

impl ChallengeManager {
    /// The details recorded for a node.
    pub closed spec fn details(&self, node_id: [u8; 32]) -> Option<ChallengeDetails> {
        lookup_first(self.challenge_details@, node_id)
    }

    /// The nodes with an active challenge.
    pub closed spec fn active(&self) -> Seq<[u8; 32]> {
        self.active_challenges@
    }

    /// The nodes whose pending challenge has run out at `now`, each once.
    pub closed spec fn expired_nodes(&self, now: u64) -> Seq<[u8; 32]> {
        expired_nodes_of(self.challenge_details@, now)
    }

    /// Each node has at most one entry.
    pub closed spec fn wf(&self) -> bool {
        unique_nodes(self.challenge_details@)
    }

    /// A manager charging `challenge_fee`: refused when the threshold is below
    /// one or the interval below a second; otherwise with no challenges.
    pub fn create(challenge_fee: u64, challenge_threshold: u64, challenge_interval: u64) -> (r: Result<
        Self,
        ChallengeManagerError,
    >)
        ensures
            challenge_threshold < MIN_CHALLENGE_THRESHOLD ==> (r matches Err(e) && e is InvalidThreshold),
            challenge_threshold >= MIN_CHALLENGE_THRESHOLD && challenge_interval < MIN_CHALLENGE_INTERVAL ==> (r matches Err(
                e,
            ) && e is InvalidInterval),
            challenge_threshold >= MIN_CHALLENGE_THRESHOLD && challenge_interval >= MIN_CHALLENGE_INTERVAL ==> (r matches Ok(
                m,
            ) && m.wf() && m.active().len() == 0 && forall|n: [u8; 32]| #[trigger] m.details(n) is None),
    {
        if challenge_threshold < MIN_CHALLENGE_THRESHOLD {
            return Err(ChallengeManagerError::InvalidThreshold("Challenge threshold must be at least 1".to_owned()));
        }
        if challenge_interval < MIN_CHALLENGE_INTERVAL {
            return Err(ChallengeManagerError::InvalidInterval("Challenge interval must be at least 1000ms".to_owned()));
        }
        Ok(ChallengeManager {
            challenge_fee,
            challenge_threshold,
            challenge_interval,
            active_challenges: Vec::new(),
            challenge_details: Vec::new(),
        })
    }

    /// The position of a node's entry.
    fn position(&self, node_id: &[u8; 32]) -> (r: Option<usize>)
        ensures
            r is None ==> lookup_first(self.challenge_details@, *node_id) is None,
            r matches Some(i) ==> i < self.challenge_details@.len() && self.challenge_details@[i as int].0 == *node_id
                && lookup_first(self.challenge_details@.take(i as int), *node_id) is None,
    {
        let n = self.challenge_details.len();
        for i in 0..n
            invariant
                n == self.challenge_details@.len(),
                forall|j: int| 0 <= j < i ==> (#[trigger] self.challenge_details@[j]).0 != *node_id,
        {
            if crate::btc::bytes32_eq(&self.challenge_details[i].0, node_id) {
                proof { lemma_lookup_first_absent(self.challenge_details@.take(i as int), *node_id); }
                return Some(i);
            }
        }
        proof { lemma_lookup_first_absent(self.challenge_details@, *node_id); }
        None
    }

    /// Records the details of a challenge under its node, replacing earlier
    /// ones.
    pub fn store_challenge_details(&mut self, details: ChallengeDetails) -> (r: Result<(), ChallengeManagerError>)
        requires
            old(self).wf(),
        ensures
            r is Ok,
            final(self).wf(),
            final(self).active() == old(self).active(),
            forall|n: [u8; 32]| #[trigger] final(self).details(n) == if n == details.node_id {
                Some(details)
            } else {
                old(self).details(n)
            },
    {
        let ghost before = self.challenge_details@;
        let key = details.node_id;
        match self.position(&key) {
            Some(i) => {
                self.challenge_details.set(i, (key, details));
                proof {
                    assert forall|n: [u8; 32]| #[trigger] lookup_first(self.challenge_details@, n) == if n == key {
                        Some(details)
                    } else {
                        lookup_first(before, n)
                    } by {
                        lemma_lookup_first_update(before, key, details, i as int, n);
                    }
                }
            },
            None => {
                proof {
                    assert forall|j: int| 0 <= j < before.len() implies before[j].0 != key by {
                        if before[j].0 == key {
                            lemma_lookup_first_found_any(before, key, j);
                        }
                    }
                }
                self.challenge_details.push((key, details));
                proof {
                    assert forall|n: [u8; 32]| #[trigger] lookup_first(self.challenge_details@, n) == if n == key {
                        Some(details)
                    } else {
                        lookup_first(before, n)
                    } by {
                        lemma_lookup_first_push(before, key, details, n);
                    }
                }
            },
        }
        Ok(())
    }

    /// The details recorded for a node.
    pub fn get_challenge_details(&self, node_id: &[u8; 32]) -> (r: Result<Option<ChallengeDetails>, ChallengeManagerError>)
        ensures
            r matches Ok(d) && d == self.details(*node_id),
    {
        match self.position(node_id) {
            Some(i) => {
                proof { lemma_lookup_first_found(self.challenge_details@, *node_id, i as int); }
                Ok(Some(self.challenge_details[i].1))
            },
            None => Ok(None),
        }
    }

    /// The nodes with an active challenge.
    pub fn get_active_challenges(&self) -> (r: Result<Vec<[u8; 32]>, ChallengeManagerError>)
        ensures
            r matches Ok(v) && v@ == self.active(),
    {
        let mut out: Vec<[u8; 32]> = Vec::new();
        let n = self.active_challenges.len();
        for i in 0..n
            invariant
                n == self.active_challenges@.len(),
                out@ == self.active_challenges@.take(i as int),
        {
            out.push(self.active_challenges[i]);
            assert(self.active_challenges@.take(i + 1) == self.active_challenges@.take(i as int).push(
                self.active_challenges@[i as int],
            ));
        }
        assert(self.active_challenges@.take(n as int) == self.active_challenges@);
        Ok(out)
    }

    /// Makes a node's challenge active.
    pub fn add_active_challenge(&mut self, node_id: [u8; 32])
        ensures
            final(self).active() == old(self).active().push(node_id),
            final(self).wf() == old(self).wf(),
            forall|n: [u8; 32]| #[trigger] final(self).details(n) == old(self).details(n),
    {
        self.active_challenges.push(node_id);
    }

    /// Closes a node's challenge: its status becomes `Completed` (if it is
    /// recorded) and it leaves the active list once.
    fn process_challenge(&mut self, node_id: [u8; 32])
        requires
            old(self).wf(),
        ensures
            final(self).wf(),
            final(self).active() == remove_first(old(self).active(), node_id),
            forall|n: [u8; 32]| #[trigger] final(self).details(n) == if n == node_id && old(self).details(n) is Some {
                Some(ChallengeDetails { status: ChallengeStatus::Completed, ..old(self).details(n)->0 })
            } else {
                old(self).details(n)
            },
    {
        let ghost before = self.challenge_details@;
        if let Some(i) = self.position(&node_id) {
            proof { lemma_lookup_first_found(before, node_id, i as int); }
            let d = self.challenge_details[i].1;
            let done = ChallengeDetails { status: ChallengeStatus::Completed, ..d };
            self.challenge_details.set(i, (node_id, done));
            proof {
                assert forall|n: [u8; 32]| #[trigger] lookup_first(self.challenge_details@, n) == if n == node_id {
                    Some(done)
                } else {
                    lookup_first(before, n)
                } by {
                    lemma_lookup_first_update(before, node_id, done, i as int, n);
                }
                assert forall|a: int, b: int|
                    0 <= a < self.challenge_details@.len() && 0 <= b < self.challenge_details@.len() && a != b implies self.challenge_details@[a].0
                    != self.challenge_details@[b].0 by {
                    assert(self.challenge_details@[a].0 == before[a].0);
                    assert(self.challenge_details@[b].0 == before[b].0);
                }
            }
        }
        self.remove_active(node_id);
    }

    /// Removes the first active entry for a node.
    fn remove_active(&mut self, node_id: [u8; 32])
        ensures
            final(self).active_challenges@ == remove_first(old(self).active_challenges@, node_id),
            final(self).challenge_details == old(self).challenge_details,
    {
        let mut out: Vec<[u8; 32]> = Vec::new();
        let n = self.active_challenges.len();
        let mut found = false;
        let ghost s = self.active_challenges@;
        for i in 0..n
            invariant
                n == s.len(),
                s == self.active_challenges@,
                !found ==> out@ == s.take(i as int) && forall|j: int| 0 <= j < i ==> s[j] != node_id,
                found ==> exists|k: int|
                    0 <= k < i && s[k] == node_id && (forall|j: int| 0 <= j < k ==> s[j] != node_id) && out@ == s.take(k)
                        + s.subrange(k + 1, i as int),
        {
            let a = self.active_challenges[i];
            if !found && crate::btc::bytes32_eq(&a, &node_id) {
                found = true;
                assert(out@ == s.take(i as int) + s.subrange(i + 1, i + 1));
            } else {
                let ghost prev = out@;
                out.push(a);
                proof {
                    if found {
                        let k = choose|k: int|
                            0 <= k < i && s[k] == node_id && (forall|j: int| 0 <= j < k ==> s[j] != node_id) && prev
                                == s.take(k) + s.subrange(k + 1, i as int);
                        assert(out@ == s.take(k) + s.subrange(k + 1, i + 1));
                    } else {
                        assert(out@ == s.take(i + 1));
                    }
                }
            }
        }
        proof {
            if found {
                let k = choose|k: int|
                    0 <= k < n && s[k] == node_id && (forall|j: int| 0 <= j < k ==> s[j] != node_id) && out@ == s.take(k)
                        + s.subrange(k + 1, n as int);
                lemma_remove_first_at(s, node_id, k);
            } else {
                assert(s.take(n as int) == s);
                lemma_remove_first_absent(s, node_id);
            }
        }
        self.active_challenges = out;
    }

    /// Closes every pending challenge whose timeout has run out at `now`.
    pub fn check_challenge(&mut self, now: u64) -> (r: Result<(), ChallengeManagerError>)
        requires
            old(self).wf(),
        ensures
            r is Ok,
            final(self).wf(),
            forall|n: [u8; 32]| #[trigger] final(self).details(n) == match old(self).details(n) {
                Some(d) => if expired(d, now) {
                    Some(ChallengeDetails { status: ChallengeStatus::Completed, ..d })
                } else {
                    Some(d)
                },
                None => None,
            },
            forall|n: [u8; 32]| #[trigger] old(self).expired_nodes(now).contains(n) <==> (old(self).details(n) matches Some(
                d,
            ) && expired(d, now)),
            final(self).active() == remove_each(old(self).active(), old(self).expired_nodes(now)),
    {
        let mut due: Vec<[u8; 32]> = Vec::new();
        let ghost mut idx: Seq<int> = Seq::empty();
        let n = self.challenge_details.len();
        for i in 0..n
            invariant
                n == self.challenge_details@.len(),
                due@ == expired_nodes_of(self.challenge_details@.take(i as int), now),
                idx.len() == due@.len(),
                forall|k: int|
                    0 <= k < idx.len() ==> 0 <= #[trigger] idx[k] < i && due@[k] == self.challenge_details@[idx[k]].0
                        && expired(self.challenge_details@[idx[k]].1, now),
                forall|j: int|
                    0 <= j < i && expired((#[trigger] self.challenge_details@[j]).1, now) ==> due@.contains(
                        self.challenge_details@[j].0,
                    ),
        {
            let d = self.challenge_details[i].1;
            assert(self.challenge_details@.take(i + 1).drop_last() == self.challenge_details@.take(i as int));
            if d.status == ChallengeStatus::Pending && now >= d.start_time && now - d.start_time >= d.timeout {
                let ghost prev = due@;
                due.push(self.challenge_details[i].0);
                proof {
                    idx = idx.push(i as int);
                    assert(due@[prev.len() as int] == self.challenge_details@[i as int].0);
                    assert forall|j: int|
                        0 <= j < i + 1 && expired((#[trigger] self.challenge_details@[j]).1, now) implies due@.contains(
                        self.challenge_details@[j].0,
                    ) by {
                        if j < i {
                            let k = choose|k: int| 0 <= k < prev.len() && prev[k] == self.challenge_details@[j].0;
                            assert(due@[k] == prev[k]);
                        }
                    }
                }
            }
        }
        let ghost start = *self;
        let m = due.len();
        for k in 0..m
            invariant
                m == due@.len(),
                self.wf(),
                self.active() == remove_each(start.active(), due@.take(k as int)),
                forall|x: [u8; 32]| #[trigger] self.details(x) == if due@.take(k as int).contains(x) && start.details(x) is Some {
                    Some(ChallengeDetails { status: ChallengeStatus::Completed, ..start.details(x)->0 })
                } else {
                    start.details(x)
                },
        {
            let ghost mid = *self;
            self.process_challenge(due[k]);
            proof {
                assert(due@.take(k + 1).drop_last() == due@.take(k as int));
                assert forall|x: [u8; 32]| #[trigger] self.details(x) == if due@.take(k + 1).contains(x) && start.details(x) is Some {
                    Some(ChallengeDetails { status: ChallengeStatus::Completed, ..start.details(x)->0 })
                } else {
                    start.details(x)
                } by {
                    let prev = due@.take(k as int);
                    let next = due@.take(k + 1);
                    assert(next == prev.push(due@[k as int]));
                    if x == due@[k as int] {
                        assert(next[k as int] == x);
                    } else {
                        if next.contains(x) {
                            let q = choose|q: int| 0 <= q < next.len() && next[q] == x;
                            assert(prev[q] == x);
                        }
                        if prev.contains(x) {
                            let q = choose|q: int| 0 <= q < prev.len() && prev[q] == x;
                            assert(next[q] == x);
                        }
                    }
                    assert(mid.details(x) == if prev.contains(x) && start.details(x) is Some {
                        Some(ChallengeDetails { status: ChallengeStatus::Completed, ..start.details(x)->0 })
                    } else {
                        start.details(x)
                    });
                }
            }
        }
        proof {
            assert(due@.take(m as int) == due@);
            assert forall|x: [u8; 32]| #[trigger] self.details(x) == match start.details(x) {
                Some(d) => if expired(d, now) {
                    Some(ChallengeDetails { status: ChallengeStatus::Completed, ..d })
                } else {
                    Some(d)
                },
                None => None,
            } by {
                if let Some(d) = start.details(x) {
                    lemma_unique_lookup_index(start.challenge_details@, x);
                    let j = choose|j: int| 0 <= j < start.challenge_details@.len() && start.challenge_details@[j].0 == x
                        && start.challenge_details@[j].1 == d;
                    if expired(d, now) {
                        assert(due@.contains(x));
                    } else if due@.contains(x) {
                        let k = choose|k: int| 0 <= k < due@.len() && due@[k] == x;
                        let j2 = idx[k];
                        assert(j2 == j);
                    }
                }
            }
            assert(start.challenge_details@.take(n as int) == start.challenge_details@);
            assert forall|x: [u8; 32]| #[trigger] start.expired_nodes(now).contains(x) <==> (start.details(x) matches Some(
                d,
            ) && expired(d, now)) by {
                if due@.contains(x) {
                    let k = choose|k: int| 0 <= k < due@.len() && due@[k] == x;
                    let j = idx[k];
                    lemma_lookup_first_found_any(start.challenge_details@, x, j);
                    lemma_unique_lookup_index(start.challenge_details@, x);
                    let j3 = choose|j3: int| 0 <= j3 < start.challenge_details@.len() && start.challenge_details@[j3].0 == x
                        && start.challenge_details@[j3].1 == start.details(x)->0;
                    assert(j3 == j);
                }
                if let Some(d) = start.details(x) {
                    if expired(d, now) {
                        lemma_unique_lookup_index(start.challenge_details@, x);
                    }
                }
            }
        }
        Ok(())
    }
}

/// A key found in a list with unique keys sits at some position with that
/// value.
pub proof fn lemma_unique_lookup_index(s: Seq<([u8; 32], ChallengeDetails)>, k: [u8; 32])
    requires
        lookup_first(s, k) is Some,
    ensures
        exists|j: int| 0 <= j < s.len() && s[j].0 == k && s[j].1 == lookup_first(s, k)->0,
    decreases s.len(),
{
    if s.len() > 0 {
        if lookup_first(s.drop_last(), k) is Some {
            lemma_unique_lookup_index(s.drop_last(), k);
            let j = choose|j: int| 0 <= j < s.drop_last().len() && s.drop_last()[j].0 == k && s.drop_last()[j].1 == lookup_first(
                s.drop_last(),
                k,
            )->0;
            assert(s[j] == s.drop_last()[j]);
        } else {
            assert(s[s.len() - 1].0 == k);
        }
    }
}

/// A key found anywhere in the list is found by the lookup.
pub proof fn lemma_lookup_first_found_any(s: Seq<([u8; 32], ChallengeDetails)>, k: [u8; 32], j: int)
    requires
        0 <= j < s.len(),
        s[j].0 == k,
    ensures
        lookup_first(s, k) is Some,
    decreases s.len(),
{
    if j < s.len() - 1 {
        lemma_lookup_first_found_any(s.drop_last(), k, j);
    }
}

/// Removing the first `x` where it first occurs at `k`.
pub proof fn lemma_remove_first_at(s: Seq<[u8; 32]>, x: [u8; 32], k: int)
    requires
        0 <= k < s.len(),
        s[k] == x,
        forall|j: int| 0 <= j < k ==> s[j] != x,
    ensures
        remove_first(s, x) == s.take(k) + s.subrange(k + 1, s.len() as int),
    decreases s.len(),
{
    if k > 0 {
        let t = s.subrange(1, s.len() as int);
        lemma_remove_first_at(t, x, k - 1);
        assert(s.take(k) + s.subrange(k + 1, s.len() as int) =~= seq![s[0]] + (t.take(k - 1) + t.subrange(k, t.len() as int)));
    } else {
        assert(s.subrange(1, s.len() as int) =~= s.take(0) + s.subrange(1, s.len() as int));
    }
}

/// Removing an `x` the list does not hold changes nothing.
pub proof fn lemma_remove_first_absent(s: Seq<[u8; 32]>, x: [u8; 32])
    requires
        forall|j: int| 0 <= j < s.len() ==> s[j] != x,
    ensures
        remove_first(s, x) == s,
    decreases s.len(),
{
    if s.len() > 0 {
        let t = s.subrange(1, s.len() as int);
        lemma_remove_first_absent(t, x);
        assert(seq![s[0]] + t =~= s);
    }
}

} // verus!
