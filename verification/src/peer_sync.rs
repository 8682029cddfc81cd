use vstd::prelude::*;

use crate::battery::{percentage_at_least, BatteryChargingSystem};
use crate::errors::{SystemError, SystemErrorType};
use crate::kv::{lookup_first, position32, upsert32};
use crate::replication::contains32;

verus! {

/// Counts kept by the synchronisation manager.
#[derive(Clone, Copy, Debug)]
pub struct SyncMetrics {
    pub total_syncs: u64,
    pub successful_syncs: u64,
    pub failed_syncs: u64,
    pub active_syncs: u64,
    pub battery_rejections: u64,
    pub suspended_peers: usize,
    pub verified_peers: usize,
}

/// How peers are synchronised: the least battery percentage, how many
/// peers at once, the pause between syncs with a peer (milliseconds), the
/// time allowed per sync and how often a sync is retried.
#[derive(Clone, Copy, Debug)]
pub struct SyncConfig {
    pub min_battery_for_sync: u64,
    pub max_concurrent_syncs: usize,
    pub sync_interval: u64,
    pub sync_timeout: u64,
    pub max_sync_retries: u32,
}

impl Default for SyncConfig {
    fn default() -> (r: Self)
        ensures
            r == (SyncConfig {
                min_battery_for_sync: 20,
                max_concurrent_syncs: 3,
                sync_interval: 5000,
                sync_timeout: 30000,
                max_sync_retries: 3,
            }),
    {
        SyncConfig {
            min_battery_for_sync: 20,
            max_concurrent_syncs: 3,
            sync_interval: 5000,
            sync_timeout: 30000,
            max_sync_retries: 3,
        }
    }
}

/// Whether a list of peers has no repeats.
pub open spec fn no_repeats(s: Seq<[u8; 32]>) -> bool {
    forall|i: int, j: int| 0 <= i < s.len() && 0 <= j < s.len() && i != j ==> s[i] != s[j]
}

/// The decisions of epidemic synchronisation: which peers to sync with, how
/// many at once, which states still need verifying for a peer, and the
/// counts. Timers, the network and the overlap scores stay outside.
pub struct SynchronizationManager {
    config: SyncConfig,
    syncing_peers: Vec<[u8; 32]>,
    active_syncs: Vec<[u8; 32]>,
    last_sync: Vec<([u8; 32], u64)>,
    verified_states: Vec<([u8; 32], Vec<[u8; 32]>)>,
    states: Vec<[u8; 32]>,
    metrics: SyncMetrics,
    is_syncing: bool,
}

impl SynchronizationManager {
    /// The settings.
    pub closed spec fn config(&self) -> SyncConfig {
        self.config
    }

    /// The peers a sync has started with.
    pub closed spec fn active(&self) -> Seq<[u8; 32]> {
        self.active_syncs@
    }

    /// The peers marked as syncing.
    pub closed spec fn syncing(&self) -> Seq<[u8; 32]> {
        self.syncing_peers@
    }

    /// When each peer was last synced.
    pub closed spec fn last_synced(&self, peer: [u8; 32]) -> Option<u64> {
        lookup_first(self.last_sync@, peer)
    }

    /// The states known to this node.
    pub closed spec fn known_states(&self) -> Seq<[u8; 32]> {
        self.states@
    }

    /// The states verified with a peer.
    pub closed spec fn verified(&self, peer: [u8; 32]) -> Set<[u8; 32]> {
        match lookup_first(self.verified_states@, peer) {
            Some(v) => v@.to_set(),
            None => Set::empty(),
        }
    }

    /// The counts.
    pub closed spec fn metrics(&self) -> SyncMetrics {
        self.metrics
    }

    /// Whether the sync loop runs.
    pub closed spec fn running(&self) -> bool {
        self.is_syncing
    }

    /// Peers are listed once each.
    pub closed spec fn wf(&self) -> bool {
        &&& no_repeats(self.active_syncs@)
        &&& no_repeats(self.syncing_peers@)
    }

    /// A peer may be synced with at `now`, given whether its overlap is
    /// enough: it has no sync under way, is not marked as syncing, was not
    /// synced within the interval, and overlaps enough.
    pub open spec fn eligible(&self, peer: [u8; 32], overlap_ok: bool, now: u64) -> bool {
        &&& !self.active().contains(peer)
        &&& !self.syncing().contains(peer)
        &&& match self.last_synced(peer) {
            Some(last) => now - last >= self.config().sync_interval,
            None => true,
        }
        &&& overlap_ok
    }

    /// The peers chosen from the first `n` candidates: each eligible one in
    /// order, stopping once the chosen reach the limit (at least one is
    /// chosen before stopping).
    pub open spec fn chosen(&self, peers: Seq<[u8; 32]>, overlap_ok: Seq<bool>, now: u64, n: int) -> Seq<[u8; 32]>
        decreases n,
    {
        if n <= 0 {
            Seq::empty()
        } else {
            let prev = self.chosen(peers, overlap_ok, now, n - 1);
            if prev.len() > 0 && prev.len() >= self.config().max_concurrent_syncs {
                prev
            } else if self.eligible(peers[n - 1], overlap_ok[n - 1], now) {
                prev.push(peers[n - 1])
            } else {
                prev
            }
        }
    }

    /// A manager with nothing tracked and zero counts, not running.
    pub fn new(config: SyncConfig) -> (r: Self)
        ensures
            r.wf(),
            r.config() == config,
            r.active().len() == 0,
            r.syncing().len() == 0,
            r.known_states().len() == 0,
            forall|p: [u8; 32]| #[trigger] r.last_synced(p) is None,
            forall|p: [u8; 32]| #[trigger] r.verified(p) == Set::<[u8; 32]>::empty(),
            r.metrics() == (SyncMetrics {
                total_syncs: 0,
                successful_syncs: 0,
                failed_syncs: 0,
                active_syncs: 0,
                battery_rejections: 0,
                suspended_peers: 0,
                verified_peers: 0,
            }),
            !r.running(),
    {
        SynchronizationManager {
            config,
            syncing_peers: Vec::new(),
            active_syncs: Vec::new(),
            last_sync: Vec::new(),
            verified_states: Vec::new(),
            states: Vec::new(),
            metrics: SyncMetrics {
                total_syncs: 0,
                successful_syncs: 0,
                failed_syncs: 0,
                active_syncs: 0,
                battery_rejections: 0,
                suspended_peers: 0,
                verified_peers: 0,
            },
            is_syncing: false,
        }
    }

    /// Starts the sync loop; nothing happens when it already runs.
    pub fn start_sync(&mut self) -> (r: Result<(), SystemError>)
        ensures
            r is Ok,
            final(self).running(),
            final(self).metrics() == old(self).metrics(),
    {
        self.is_syncing = true;
        Ok(())
    }

    /// Stops the sync loop.
    pub fn stop_sync(&mut self)
        ensures
            !final(self).running(),
            final(self).metrics() == old(self).metrics(),
    {
        self.is_syncing = false;
    }

    /// Whether the sync loop runs.
    pub fn is_syncing(&self) -> (r: bool)
        ensures
            r == self.running(),
    {
        self.is_syncing
    }

    /// Whether a sync round may go ahead on this battery: it may not when
    /// the battery's percentage is below the configured minimum, which is
    /// then counted as a rejection. A battery with no capacity never holds a
    /// round back.
    pub fn battery_allows_sync(&mut self, battery: &BatteryChargingSystem) -> (r: bool)
        requires
            old(self).metrics().battery_rejections < u64::MAX,
        ensures
            r == !(battery.config().max_charge != 0 && !percentage_at_least(
                battery.level(),
                battery.config().max_charge,
                old(self).config().min_battery_for_sync,
            )),
            r ==> final(self).metrics() == old(self).metrics(),
            !r ==> final(self).metrics() == (SyncMetrics {
                battery_rejections: (old(self).metrics().battery_rejections + 1) as u64,
                ..old(self).metrics()
            }),
            final(self).config() == old(self).config(),
            final(self).active() == old(self).active(),
            final(self).syncing() == old(self).syncing(),
            final(self).running() == old(self).running(),
    {
        let level = battery.battery_level();
        let cfg = battery.get_config();
        if cfg.max_charge != 0 && !crate::battery::at_least_percent(level, cfg.max_charge, self.config.min_battery_for_sync) {
            self.metrics.battery_rejections = self.metrics.battery_rejections + 1;
            false
        } else {
            true
        }
    }

    /// When a peer was last synced, if ever.
    pub fn last_sync_time(&self, peer: &[u8; 32]) -> (r: Option<u64>)
        ensures
            r == self.last_synced(*peer),
    {
        match position32(&self.last_sync, peer) {
            Some(i) => Some(self.last_sync[i].1),
            None => None,
        }
    }

    /// Whether a peer is eligible at `now`.
    fn is_eligible(&self, peer: &[u8; 32], overlap_ok: bool, now: u64) -> (r: bool)
        requires
            self.last_synced(*peer) matches Some(last) ==> last <= now,
        ensures
            r == self.eligible(*peer, overlap_ok, now),
    {
        if contains32(&self.active_syncs, peer) {
            return false;
        }
        if contains32(&self.syncing_peers, peer) {
            return false;
        }
        match position32(&self.last_sync, peer) {
            Some(i) => {
                let last = self.last_sync[i].1;
                if now - last < self.config.sync_interval {
                    return false;
                }
            },
            None => {},
        }
        overlap_ok
    }

    /// The peers to sync with now, from candidates given with whether each
    /// overlaps enough: the eligible ones in order, up to the limit (and at
    /// least the first eligible one).
    pub fn select_sync_peers(&self, available_peers: &Vec<[u8; 32]>, overlap_ok: &Vec<bool>, now: u64) -> (r: Vec<
        [u8; 32],
    >)
        requires
            overlap_ok@.len() == available_peers@.len(),
            forall|i: int|
                0 <= i < available_peers@.len() ==> (self.last_synced(#[trigger] available_peers@[i]) matches Some(last)
                    ==> last <= now),
        ensures
            r@ == self.chosen(available_peers@, overlap_ok@, now, available_peers@.len() as int),
    {
        let mut selected: Vec<[u8; 32]> = Vec::new();
        let n = available_peers.len();
        let mut i: usize = 0;
        while i < n
            invariant
                n == available_peers@.len(),
                overlap_ok@.len() == n,
                i <= n,
                selected@ == self.chosen(available_peers@, overlap_ok@, now, i as int),
                forall|k: int|
                    0 <= k < available_peers@.len() ==> (self.last_synced(#[trigger] available_peers@[k]) matches Some(
                        last,
                    ) ==> last <= now),
                !(selected@.len() > 0 && selected@.len() >= self.config().max_concurrent_syncs),
            decreases n - i,
        {
            let peer = available_peers[i];
            if self.is_eligible(&peer, overlap_ok[i], now) {
                selected.push(peer);
                assert(selected@ == self.chosen(available_peers@, overlap_ok@, now, i + 1));
                if selected.len() >= self.config.max_concurrent_syncs {
                    proof {
                        assert forall|m: int| i + 1 <= m <= n implies #[trigger] self.chosen(
                            available_peers@,
                            overlap_ok@,
                            now,
                            m,
                        ) == selected@ by {
                            lemma_chosen_stays(*self, available_peers@, overlap_ok@, now, i as int + 1, m);
                        }
                    }
                    assert(self.chosen(available_peers@, overlap_ok@, now, n as int) == selected@);
                    return selected;
                }
            }
            i = i + 1;
        }
        selected
    }

    /// Starts a sync with a peer: refused when the limit of syncs under way
    /// is reached; otherwise the peer is under way and marked as syncing.
    pub fn sync_with_peer(&mut self, peer: &[u8; 32]) -> (r: Result<(), SystemError>)
        requires
            old(self).wf(),
        ensures
            final(self).wf(),
            old(self).active().len() >= old(self).config().max_concurrent_syncs ==> (r matches Err(e) && e.error_type
                == SystemErrorType::TooManySyncs) && *final(self) == *old(self),
            old(self).active().len() < old(self).config().max_concurrent_syncs ==> r is Ok,
            old(self).active().len() < old(self).config().max_concurrent_syncs ==> final(self).active().to_set()
                == old(self).active().to_set().insert(*peer),
            old(self).active().len() < old(self).config().max_concurrent_syncs ==> final(self).syncing().to_set()
                == old(self).syncing().to_set().insert(*peer),
            final(self).config() == old(self).config(),
            final(self).metrics() == old(self).metrics(),
            forall|p: [u8; 32]| #[trigger] final(self).last_synced(p) == old(self).last_synced(p),
            forall|p: [u8; 32]| #[trigger] final(self).verified(p) == old(self).verified(p),
            final(self).known_states() == old(self).known_states(),
            final(self).running() == old(self).running(),
    {
        if self.active_syncs.len() >= self.config.max_concurrent_syncs {
            return Err(SystemError::new(SystemErrorType::TooManySyncs, "Maximum concurrent syncs reached"));
        }
        insert_peer(&mut self.active_syncs, *peer);
        insert_peer(&mut self.syncing_peers, *peer);
        Ok(())
    }

    /// Records how a sync with a peer ended: a success records its start as
    /// the peer's last sync; each outcome is counted.
    pub fn finish_sync(&mut self, peer: &[u8; 32], succeeded: bool, start_time: u64)
        requires
            old(self).metrics().successful_syncs < u64::MAX,
            old(self).metrics().failed_syncs < u64::MAX,
        ensures
            succeeded ==> forall|p: [u8; 32]| #[trigger] final(self).last_synced(p) == if p == *peer {
                Some(start_time)
            } else {
                old(self).last_synced(p)
            },
            !succeeded ==> forall|p: [u8; 32]| #[trigger] final(self).last_synced(p) == old(self).last_synced(p),
            succeeded ==> final(self).metrics() == (SyncMetrics {
                successful_syncs: (old(self).metrics().successful_syncs + 1) as u64,
                ..old(self).metrics()
            }),
            !succeeded ==> final(self).metrics() == (SyncMetrics {
                failed_syncs: (old(self).metrics().failed_syncs + 1) as u64,
                ..old(self).metrics()
            }),
            final(self).wf() == old(self).wf(),
            final(self).active() == old(self).active(),
            final(self).syncing() == old(self).syncing(),
            final(self).config() == old(self).config(),
            forall|p: [u8; 32]| #[trigger] final(self).verified(p) == old(self).verified(p),
            final(self).known_states() == old(self).known_states(),
            final(self).running() == old(self).running(),
    {
        if succeeded {
            upsert32(&mut self.last_sync, *peer, start_time);
            self.metrics.successful_syncs = self.metrics.successful_syncs + 1;
        } else {
            self.metrics.failed_syncs = self.metrics.failed_syncs + 1;
        }
    }

    /// Adds a state to those this node knows.
    pub fn track_state(&mut self, state_hash: [u8; 32])
        ensures
            final(self).known_states().to_set() == old(self).known_states().to_set().insert(state_hash),
            final(self).wf() == old(self).wf(),
            final(self).active() == old(self).active(),
            final(self).syncing() == old(self).syncing(),
            final(self).config() == old(self).config(),
            final(self).metrics() == old(self).metrics(),
            forall|p: [u8; 32]| #[trigger] final(self).last_synced(p) == old(self).last_synced(p),
            forall|p: [u8; 32]| #[trigger] final(self).verified(p) == old(self).verified(p),
            final(self).running() == old(self).running(),
    {
        if !contains32(&self.states, &state_hash) {
            self.states.push(state_hash);
            proof {
                old(self).states@.lemma_push_to_set_commute(state_hash);
            }
        }
        assert(self.states@.to_set() =~= old(self).states@.to_set().insert(state_hash));
    }

    /// The known states not yet verified with a peer, in order.
    pub fn get_unverified_states(&self, peer: &[u8; 32]) -> (r: Result<Vec<[u8; 32]>, SystemError>)
        ensures
            r matches Ok(v) && v@ == self.known_states().filter(|s: [u8; 32]| !self.verified(*peer).contains(s)),
    {
        let verified: Vec<[u8; 32]> = match position32(&self.verified_states, peer) {
            Some(i) => crate::replication::copy_hashes(&self.verified_states[i].1),
            None => Vec::new(),
        };
        assert(verified@.to_set() == self.verified(*peer));
        let ghost pred = |s: [u8; 32]| !self.verified(*peer).contains(s);
        let mut out: Vec<[u8; 32]> = Vec::new();
        let n = self.states.len();
        for i in 0..n
            invariant
                n == self.states@.len(),
                verified@.to_set() == self.verified(*peer),
                pred == (|s: [u8; 32]| !self.verified(*peer).contains(s)),
                out@ == self.states@.take(i as int).filter(pred),
        {
            let s = self.states[i];
            proof {
                assert(self.states@.take(i + 1) == self.states@.take(i as int).push(s));
                self.states@.take(i as int).lemma_filter_push(s, pred);
            }
            if !contains32(&verified, &s) {
                assert(!verified@.to_set().contains(s));
                out.push(s);
            } else {
                assert(verified@.to_set().contains(s));
            }
        }
        assert(self.states@.take(n as int) == self.states@);
        Ok(out)
    }

    /// Whether a state is known; refused when it is not.
    pub fn verify_state(&self, state_hash: &[u8; 32]) -> (r: Result<(), SystemError>)
        ensures
            r is Ok <==> self.known_states().contains(*state_hash),
            r matches Err(e) ==> e.error_type == SystemErrorType::InvalidInput,
    {
        if contains32(&self.states, state_hash) {
            Ok(())
        } else {
            Err(SystemError::new(SystemErrorType::InvalidInput, "State not found"))
        }
    }

    /// Verifies with a peer every known state not yet verified with it.
    pub fn execute_sync(&mut self, peer: &[u8; 32]) -> (r: Result<(), SystemError>)
        ensures
            r is Ok,
            final(self).verified(*peer) == old(self).verified(*peer).union(old(self).known_states().to_set()),
            forall|p: [u8; 32]| p != *peer ==> #[trigger] final(self).verified(p) == old(self).verified(p),
            final(self).wf() == old(self).wf(),
            final(self).active() == old(self).active(),
            final(self).syncing() == old(self).syncing(),
            final(self).config() == old(self).config(),
            final(self).metrics() == old(self).metrics(),
            forall|p: [u8; 32]| #[trigger] final(self).last_synced(p) == old(self).last_synced(p),
            final(self).known_states() == old(self).known_states(),
            final(self).running() == old(self).running(),
    {
        let todo = match self.get_unverified_states(peer) {
            Ok(v) => v,
            Err(e) => {
                return Err(e);
            },
        };
        let mut list: Vec<[u8; 32]> = match position32(&self.verified_states, peer) {
            Some(i) => crate::replication::copy_hashes(&self.verified_states[i].1),
            None => Vec::new(),
        };
        let ghost start = self.verified(*peer);
        let ghost known = self.states@;
        let ghost pred = |x: [u8; 32]| !start.contains(x);
        assert(list@.to_set() == start);
        let n = todo.len();
        for i in 0..n
            invariant
                n == todo@.len(),
                todo@ == known.filter(pred),
                known == self.states@,
                list@.to_set() == start.union(todo@.take(i as int).to_set()),
        {
            let s = todo[i];
            proof {
                assert(todo@.contains(s));
                known.lemma_filter_contains_rev(pred, s);
            }
            let ghost before_list = list@;
            let checked = self.verify_state(&s);
            if let Ok(()) = checked {
                list.push(s);
            }
            proof {
                before_list.lemma_push_to_set_commute(s);
                todo@.take(i as int).lemma_push_to_set_commute(s);
                assert(todo@.take(i + 1) == todo@.take(i as int).push(s));
                assert(list@.to_set() =~= start.union(todo@.take(i + 1).to_set()));
            }
        }
        upsert32(&mut self.verified_states, *peer, list);
        proof {
            assert(todo@.take(n as int) == todo@);
            assert forall|x: [u8; 32]| todo@.to_set().contains(x) implies known.to_set().contains(x) by {
                known.lemma_filter_contains_rev(pred, x);
            }
            assert forall|x: [u8; 32]| known.to_set().contains(x) && !start.contains(x) implies todo@.to_set().contains(x) by {
                let k = choose|k: int| 0 <= k < known.len() && known[k] == x;
                known.lemma_filter_contains(pred, k);
            }
            assert(start.union(todo@.to_set()) =~= start.union(known.to_set()));
        }
        Ok(())
    }

    /// Makes the total the sum of successes and failures.
    pub fn update_metrics(&mut self)
        requires
            old(self).metrics().successful_syncs + old(self).metrics().failed_syncs <= u64::MAX,
        ensures
            final(self).metrics() == (SyncMetrics {
                total_syncs: (old(self).metrics().successful_syncs + old(self).metrics().failed_syncs) as u64,
                ..old(self).metrics()
            }),
            final(self).wf() == old(self).wf(),
            final(self).active() == old(self).active(),
            final(self).syncing() == old(self).syncing(),
            final(self).config() == old(self).config(),
    {
        self.metrics.total_syncs = self.metrics.successful_syncs + self.metrics.failed_syncs;
    }

    /// The counts.
    pub fn get_metrics(&self) -> (r: SyncMetrics)
        ensures
            r == self.metrics(),
    {
        self.metrics
    }

    /// The settings.
    pub fn get_config(&self) -> (r: SyncConfig)
        ensures
            r == self.config(),
    {
        self.config
    }
}

/// Adds a peer to a list of peers without repeating it.
fn insert_peer(v: &mut Vec<[u8; 32]>, peer: [u8; 32])
    requires
        no_repeats(old(v)@),
    ensures
        no_repeats(final(v)@),
        final(v)@.to_set() == old(v)@.to_set().insert(peer),
{
    if !contains32(v, &peer) {
        v.push(peer);
        proof {
            old(v)@.lemma_push_to_set_commute(peer);
            assert forall|i: int, j: int| 0 <= i < v@.len() && 0 <= j < v@.len() && i != j implies v@[i] != v@[j] by {
                if i == v@.len() - 1 {
                    assert(!old(v)@.contains(peer));
                    assert(old(v)@[j] == v@[j]);
                } else if j == v@.len() - 1 {
                    assert(!old(v)@.contains(peer));
                    assert(old(v)@[i] == v@[i]);
                }
            }
        }
    }
    assert(v@.to_set() =~= old(v)@.to_set().insert(peer));
}

/// Once the chosen peers reach the limit, later candidates change nothing.
pub proof fn lemma_chosen_stays(
    m: SynchronizationManager,
    peers: Seq<[u8; 32]>,
    overlap_ok: Seq<bool>,
    now: u64,
    i: int,
    k: int,
)
    requires
        0 <= i <= k,
        m.chosen(peers, overlap_ok, now, i).len() > 0,
        m.chosen(peers, overlap_ok, now, i).len() >= m.config().max_concurrent_syncs,
    ensures
        m.chosen(peers, overlap_ok, now, k) == m.chosen(peers, overlap_ok, now, i),
    decreases k - i,
{
    if k > i {
        lemma_chosen_stays(m, peers, overlap_ok, now, i, k - 1);
    }
}

/// The peers chosen for a round are each eligible, and there are no more
/// of them than the limit (one, when the limit is zero).
pub proof fn lemma_chosen_eligible_bounded(
    m: SynchronizationManager,
    peers: Seq<[u8; 32]>,
    overlap_ok: Seq<bool>,
    now: u64,
    n: int,
)
    requires
        0 <= n <= peers.len(),
        overlap_ok.len() == peers.len(),
    ensures
        forall|k: int|
            0 <= k < m.chosen(peers, overlap_ok, now, n).len() ==> exists|j: int|
                0 <= j < n && peers[j] == #[trigger] m.chosen(peers, overlap_ok, now, n)[k] && m.eligible(
                    peers[j],
                    overlap_ok[j],
                    now,
                ),
        m.chosen(peers, overlap_ok, now, n).len() <= if m.config().max_concurrent_syncs == 0 {
            1
        } else {
            m.config().max_concurrent_syncs as int
        },
    decreases n,
{
    if n > 0 {
        lemma_chosen_eligible_bounded(m, peers, overlap_ok, now, n - 1);
        let prev = m.chosen(peers, overlap_ok, now, n - 1);
        let cur = m.chosen(peers, overlap_ok, now, n);
        assert forall|k: int| 0 <= k < cur.len() implies exists|j: int|
            0 <= j < n && peers[j] == #[trigger] cur[k] && m.eligible(peers[j], overlap_ok[j], now) by {
            if k < prev.len() {
                assert(cur[k] == prev[k]);
                let j = choose|j: int|
                    0 <= j < n - 1 && peers[j] == #[trigger] prev[k] && m.eligible(peers[j], overlap_ok[j], now);
                assert(peers[j] == cur[k]);
            } else {
                assert(peers[n - 1] == cur[k]);
            }
        }
    }
}

} // verus!
