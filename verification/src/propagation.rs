use vstd::prelude::*;

use crate::errors::{SystemError, SystemErrorType};
use crate::kv::{lemma_lookup_first_absent, lemma_lookup_first_found, lemma_lookup_first_push, lemma_lookup_first_update, lookup_first};
use crate::wallet_extension::contains_id;

verus! {

/// How urgent a message is; the less urgent, the more battery it needs.
#[derive(Clone, Copy, Debug, PartialEq, Eq, Structural)]
pub enum MessagePriority {
    Critical,
    High,
    Medium,
    Low,
}

/// Where a message's propagation stands.
#[derive(Clone, Copy, Debug, PartialEq, Eq, Structural)]
pub enum MessageState {
    Propagating,
    Propagated,
    Failed,
    Unknown,
}

/// A message to spread to peers. Its battery requirement is the charge, in
/// percentage points, that spreading it takes from the battery.
#[derive(Clone, Debug)]
pub struct PropagationMessage {
    pub id: [u8; 32],
    pub priority: MessagePriority,
    pub payload: Vec<u8>,
    pub battery_requirement: u8,
}

/// Counters of propagation work.
#[derive(Clone, Copy, Debug)]
pub struct PropagationMetrics {
    pub messages_seen: u64,
    pub messages_propagated: u64,
    pub battery_rejections: u64,
    pub active_propagations: u64,
    pub successful_peers: u64,
    pub failed_peers: u64,
}

/// Why a message was not propagated.
#[derive(Clone, Copy, Debug, PartialEq, Eq, Structural)]
pub enum PropagationError {
    LowBattery,
    ResourceLimitReached,
}

/// What to do with a message handed in.
#[derive(Clone, Copy, Debug, PartialEq, Eq, Structural)]
pub enum PropagationAction {
    /// The message was seen before: nothing to do.
    AlreadySeen,
    /// Send the message to the chosen peers, then report with `finish`.
    Propagate,
}

/// The battery percentage a message of the given priority needs.
pub open spec fn spec_min_battery(priority: MessagePriority) -> u64 {
    match priority {
        MessagePriority::Critical => 5,
        MessagePriority::High => 20,
        MessagePriority::Medium => 40,
        MessagePriority::Low => 60,
    }
}

/// The battery percentage a message of the given priority needs.
pub fn min_battery_level(priority: MessagePriority) -> (r: u64)
    ensures
        r == spec_min_battery(priority),
{
    match priority {
        MessagePriority::Critical => 5,
        MessagePriority::High => 20,
        MessagePriority::Medium => 40,
        MessagePriority::Low => 60,
    }
}

/// The battery, at `level` of `max`, is below `min_percent` percent; a
/// battery without capacity is never below.
pub open spec fn battery_below(level: u64, max: u64, min_percent: u64) -> bool {
    max != 0 && level * 100 < min_percent * max
}

/// The battery percentage a message needs: what its priority asks for, plus
/// the charge spreading it takes.
pub open spec fn required_percent(priority: MessagePriority, battery_requirement: u8) -> u64 {
    (spec_min_battery(priority) + battery_requirement) as u64
}

/// The ids of a list other than `id`, in order.
pub open spec fn without(s: Seq<[u8; 32]>, id: [u8; 32]) -> Seq<[u8; 32]>
    decreases s.len(),
{
    if s.len() == 0 {
        Seq::empty()
    } else if s.last() == id {
        without(s.drop_last(), id)
    } else {
        without(s.drop_last(), id).push(s.last())
    }
}

/// Leaving out `id` keeps exactly the other ids.
pub proof fn lemma_without_contains(s: Seq<[u8; 32]>, id: [u8; 32], x: [u8; 32])
    ensures
        without(s, id).contains(x) <==> s.contains(x) && x != id,
    decreases s.len(),
{
    if s.len() > 0 {
        lemma_without_contains(s.drop_last(), id, x);
        let w = without(s.drop_last(), id);
        if s.contains(x) && x != id {
            let q = choose|q: int| 0 <= q < s.len() && s[q] == x;
            if q < s.len() - 1 {
                assert(s.drop_last()[q] == x);
            }
        }
        if without(s, id).contains(x) {
            let m = choose|m: int| 0 <= m < without(s, id).len() && without(s, id)[m] == x;
            if s.last() != id && m == w.len() {
                assert(s[s.len() - 1] == x);
            } else {
                assert(w[m] == x);
                let q = choose|q: int| 0 <= q < s.drop_last().len() && s.drop_last()[q] == x;
                assert(s[q] == x);
            }
        }
        if s.last() != id {
            assert(without(s, id) == w.push(s.last()));
            if w.contains(x) {
                let m = choose|m: int| 0 <= m < w.len() && w[m] == x;
                assert(without(s, id)[m] == x);
            }
            if x == s.last() {
                assert(without(s, id)[w.len() as int] == x);
            }
        }
    }
}

/// The network can accept the bytes sent to the peer.
pub open spec fn send_accepted<N: NetworkSystem>(network: &N, peer: &[u8; 32], payload: &[u8]) -> bool {
    exists|s: Result<(), SystemError>| #[trigger] call_ensures(N::send_message, (network, peer, payload), s) && s is Ok
}

/// The network can report the peer's acknowledgment of the message
/// (`acked`), or its absence.
pub open spec fn ack_answer<N: NetworkSystem>(network: &N, peer: &[u8; 32], message_id: [u8; 32], acked: bool) -> bool {
    exists|w: Result<(), SystemError>| #[trigger] call_ensures(N::wait_for_ack, (network, peer, message_id), w) && (w is Ok
        <==> acked)
}

/// What the network can have done with the message for one peer: the peer
/// took it (the bytes were accepted and the peer's acknowledgment reported),
/// or not (the send of the bytes failed, or it was accepted and no
/// acknowledgment came).
pub open spec fn peer_outcome<N: NetworkSystem>(
    network: &N,
    peer: &[u8; 32],
    payload: &[u8],
    message_id: [u8; 32],
    took: bool,
) -> bool {
    if took {
        send_accepted(network, peer, payload) && ack_answer(network, peer, message_id, true)
    } else {
        ||| exists|e: SystemError| #[trigger] call_ensures(N::send_message, (network, peer, payload), Err::<(), SystemError>(e))
        ||| send_accepted(network, peer, payload) && ack_answer(network, peer, message_id, false)
    }
}

/// How many entries are true.
pub open spec fn count_true(s: Seq<bool>) -> nat
    decreases s.len(),
{
    if s.len() == 0 {
        0
    } else {
        count_true(s.drop_last()) + if s.last() { 1nat } else { 0nat }
    }
}

/// How propagation reaches peers: sending a message's bytes and waiting
/// for a peer's acknowledgment. Implemented by the network in use.
pub trait NetworkSystem {
    fn send_message(&self, peer: &[u8; 32], payload: &[u8]) -> Result<(), SystemError>;

    fn wait_for_ack(&self, peer: &[u8; 32], message_id: [u8; 32]) -> Result<(), SystemError>;
}

/// The decisions of epidemic propagation: which messages to take on, and
/// what became of them. Sending to peers is done outside, between `accept_message`
/// and `finish`.
pub struct PropagationTracker {
    seen: Vec<[u8; 32]>,
    message_states: Vec<([u8; 32], MessageState)>,
    active: Vec<[u8; 32]>,
    metrics: PropagationMetrics,
    max_active_propagations: usize,
}

impl PropagationTracker {
    /// The messages seen so far.
    pub closed spec fn seen(&self) -> Seq<[u8; 32]> {
        self.seen@
    }

    /// The state recorded for a message.
    pub closed spec fn state_of(&self, id: [u8; 32]) -> Option<MessageState> {
        lookup_first(self.message_states@, id)
    }

    /// The messages being propagated.
    pub closed spec fn active(&self) -> Seq<[u8; 32]> {
        self.active@
    }

    /// The counters.
    pub closed spec fn metrics(&self) -> PropagationMetrics {
        self.metrics
    }

    /// How many messages may be propagated at once.
    pub closed spec fn max_active(&self) -> usize {
        self.max_active_propagations
    }

    /// Nothing seen, nothing active, all counters zero; at most ten messages
    /// at once.
    pub fn new() -> (r: Self)
        ensures
            r.seen().len() == 0,
            r.active().len() == 0,
            forall|id: [u8; 32]| #[trigger] r.state_of(id) is None,
            r.max_active() == 10,
            r.metrics() == (PropagationMetrics {
                messages_seen: 0,
                messages_propagated: 0,
                battery_rejections: 0,
                active_propagations: 0,
                successful_peers: 0,
                failed_peers: 0,
            }),
    {
        PropagationTracker {
            seen: Vec::new(),
            message_states: Vec::new(),
            active: Vec::new(),
            metrics: PropagationMetrics {
                messages_seen: 0,
                messages_propagated: 0,
                battery_rejections: 0,
                active_propagations: 0,
                successful_peers: 0,
                failed_peers: 0,
            },
            max_active_propagations: 10,
        }
    }

    /// Records the state of a message, replacing any earlier one.
    fn set_state(&mut self, id: [u8; 32], state: MessageState)
        ensures
            forall|x: [u8; 32]|
                #[trigger] lookup_first(final(self).message_states@, x) == if x == id {
                    Some(state)
                } else {
                    lookup_first(old(self).message_states@, x)
                },
            final(self).seen == old(self).seen,
            final(self).active == old(self).active,
            final(self).metrics == old(self).metrics,
            final(self).max_active_propagations == old(self).max_active_propagations,
    {
        let ghost before = self.message_states@;
        let n = self.message_states.len();
        for i in 0..n
            invariant
                n == self.message_states@.len(),
                self.message_states@ == before,
                before == old(self).message_states@,
                self.seen == old(self).seen,
                self.active == old(self).active,
                self.metrics == old(self).metrics,
                self.max_active_propagations == old(self).max_active_propagations,
                forall|j: int| 0 <= j < i ==> (#[trigger] before[j]).0 != id,
        {
            if crate::btc::bytes32_eq(&self.message_states[i].0, &id) {
                proof { lemma_lookup_first_absent(before.take(i as int), id); }
                self.message_states.set(i, (id, state));
                proof {
                    assert forall|x: [u8; 32]| #[trigger] lookup_first(self.message_states@, x) == if x == id {
                        Some(state)
                    } else {
                        lookup_first(before, x)
                    } by {
                        lemma_lookup_first_update(before, id, state, i as int, x);
                    }
                }
                return;
            }
        }
        proof { lemma_lookup_first_absent(before, id); }
        self.message_states.push((id, state));
        proof {
            assert forall|x: [u8; 32]| #[trigger] lookup_first(self.message_states@, x) == if x == id {
                Some(state)
            } else {
                lookup_first(before, x)
            } by {
                lemma_lookup_first_push(before, id, state, x);
            }
        }
    }

    /// Takes on a message with `id`, `priority` and `battery_requirement`
    /// while the battery is at `battery_level` of `max_charge`. A message
    /// seen before is left alone. Otherwise it counts as seen; it is refused
    /// when the battery, less the message's requirement, is below the
    /// percentage its priority needs (counted as a battery rejection), or
    /// when the most messages are already being propagated; else it becomes
    /// active and `Propagating`. Only the counters a call raises need room.
    pub fn accept_message(
        &mut self,
        id: [u8; 32],
        priority: MessagePriority,
        battery_requirement: u8,
        battery_level: u64,
        max_charge: u64,
    ) -> (r: Result<PropagationAction, PropagationError>)
        requires
            !old(self).seen().contains(id) ==> old(self).metrics().messages_seen < u64::MAX,
            !old(self).seen().contains(id) && battery_below(
                battery_level,
                max_charge,
                required_percent(priority, battery_requirement),
            ) ==> old(self).metrics().battery_rejections < u64::MAX,
            !old(self).seen().contains(id) && !battery_below(
                battery_level,
                max_charge,
                required_percent(priority, battery_requirement),
            ) && old(self).active().len() < old(self).max_active() ==> old(self).metrics().active_propagations
                < u64::MAX,
        ensures
            final(self).max_active() == old(self).max_active(),
            final(self).metrics().messages_propagated == old(self).metrics().messages_propagated,
            final(self).metrics().successful_peers == old(self).metrics().successful_peers,
            final(self).metrics().failed_peers == old(self).metrics().failed_peers,
            old(self).seen().contains(id) ==> r == Ok::<PropagationAction, PropagationError>(PropagationAction::AlreadySeen)
                && final(self).seen() == old(self).seen() && final(self).active() == old(self).active()
                && final(self).metrics() == old(self).metrics()
                && forall|x: [u8; 32]| #[trigger] final(self).state_of(x) == old(self).state_of(x),
            !old(self).seen().contains(id) ==> final(self).seen() == old(self).seen().push(id)
                && final(self).metrics().messages_seen == old(self).metrics().messages_seen + 1,
            !old(self).seen().contains(id) && battery_below(battery_level, max_charge, required_percent(priority, battery_requirement)) ==> r
                == Err::<PropagationAction, PropagationError>(PropagationError::LowBattery) && final(self).active()
                == old(self).active() && final(self).metrics().battery_rejections == old(self).metrics().battery_rejections
                + 1 && final(self).metrics().active_propagations == old(self).metrics().active_propagations
                && forall|x: [u8; 32]| #[trigger] final(self).state_of(x) == old(self).state_of(x),
            !old(self).seen().contains(id) && !battery_below(battery_level, max_charge, required_percent(priority, battery_requirement))
                && old(self).active().len() >= old(self).max_active() ==> r == Err::<PropagationAction, PropagationError>(
                PropagationError::ResourceLimitReached,
            ) && final(self).active() == old(self).active() && final(self).metrics().battery_rejections == old(
                self,
            ).metrics().battery_rejections && final(self).metrics().active_propagations == old(
                self,
            ).metrics().active_propagations && forall|x: [u8; 32]| #[trigger] final(self).state_of(x) == old(self).state_of(x),
            !old(self).seen().contains(id) && !battery_below(battery_level, max_charge, required_percent(priority, battery_requirement))
                && old(self).active().len() < old(self).max_active() ==> r == Ok::<PropagationAction, PropagationError>(
                PropagationAction::Propagate,
            ) && final(self).active() == old(self).active().push(id) && final(self).metrics().battery_rejections
                == old(self).metrics().battery_rejections && final(self).metrics().active_propagations == old(
                self,
            ).metrics().active_propagations + 1 && forall|x: [u8; 32]| #[trigger] final(self).state_of(x) == if x
                == id {
                Some(MessageState::Propagating)
            } else {
                old(self).state_of(x)
            },
    {
        if contains_id(&self.seen, &id) {
            return Ok(PropagationAction::AlreadySeen);
        }
        self.seen.push(id);
        self.metrics.messages_seen = self.metrics.messages_seen + 1;
        let min_battery = min_battery_level(priority) + battery_requirement as u64;
        assert((min_battery as u128) * (max_charge as u128) <= 315 * 0xffff_ffff_ffff_ffffu128) by (nonlinear_arith)
            requires
                min_battery <= 315,
                max_charge <= 0xffff_ffff_ffff_ffffu64,
        ;
        let below = max_charge != 0 && (battery_level as u128) * 100 < (min_battery as u128) * (max_charge as u128);
        if below {
            self.metrics.battery_rejections = self.metrics.battery_rejections + 1;
            return Err(PropagationError::LowBattery);
        }
        if self.active.len() >= self.max_active_propagations {
            return Err(PropagationError::ResourceLimitReached);
        }
        self.set_state(id, MessageState::Propagating);
        self.active.push(id);
        self.metrics.active_propagations = self.metrics.active_propagations + 1;
        Ok(PropagationAction::Propagate)
    }

    /// Notes that a peer acknowledged a message.
    pub fn record_ack(&mut self)
        requires
            old(self).metrics().messages_propagated < u64::MAX,
        ensures
            final(self).metrics() == (PropagationMetrics {
                messages_propagated: (old(self).metrics().messages_propagated + 1) as u64,
                ..old(self).metrics()
            }),
            final(self).seen() == old(self).seen(),
            final(self).active() == old(self).active(),
            final(self).max_active() == old(self).max_active(),
            forall|x: [u8; 32]| #[trigger] final(self).state_of(x) == old(self).state_of(x),
    {
        self.metrics.messages_propagated = self.metrics.messages_propagated + 1;
    }

    /// Sends a message's bytes to a peer and waits for its acknowledgment:
    /// an acknowledged message is counted as propagated; a failed send is
    /// passed on; a missing acknowledgment is a network error. Succeeds
    /// exactly when the network accepts the bytes and reports the peer's
    /// acknowledgment.
    pub fn propagate_to_peer<N: NetworkSystem>(&mut self, network: &N, message_id: [u8; 32], peer: &[u8; 32], payload: &[u8]) -> (r:
        Result<(), SystemError>)
        requires
            old(self).metrics().messages_propagated < u64::MAX,
        ensures
            r is Ok ==> final(self).metrics() == (PropagationMetrics {
                messages_propagated: (old(self).metrics().messages_propagated + 1) as u64,
                ..old(self).metrics()
            }),
            r is Err ==> final(self).metrics() == old(self).metrics(),
            r is Ok ==> send_accepted(network, peer, payload) && ack_answer(network, peer, message_id, true),
            r matches Err(e) ==> {
                ||| call_ensures(N::send_message, (network, peer, payload), Err::<(), SystemError>(e))
                ||| send_accepted(network, peer, payload) && ack_answer(network, peer, message_id, false)
                    && e.error_type == SystemErrorType::NetworkError
            },
            final(self).seen() == old(self).seen(),
            final(self).active() == old(self).active(),
            final(self).max_active() == old(self).max_active(),
            forall|x: [u8; 32]| #[trigger] final(self).state_of(x) == old(self).state_of(x),
    {
        let sent = network.send_message(peer, payload);
        match sent {
            Ok(()) => {},
            Err(e) => {
                return Err(e);
            },
        }
        let acked = network.wait_for_ack(peer, message_id);
        proof {
            assert(call_ensures(N::send_message, (network, peer, payload), sent));
            assert(call_ensures(N::wait_for_ack, (network, peer, message_id), acked));
        }
        match acked {
            Ok(()) => {
                self.record_ack();
                Ok(())
            },
            Err(_) => Err(SystemError::new(SystemErrorType::NetworkError, "Failed to receive acknowledgment")),
        }
    }

    /// Sends a message to each peer in turn, as `propagate_to_peer` does,
    /// and records the outcome as `finish` does. The answer is how many peers
    /// took it, how many did not, and, peer by peer, whether it took it, as
    /// the network answered for that peer, this payload and this message.
    pub fn propagate_to_peers<N: NetworkSystem>(&mut self, network: &N, message_id: [u8; 32], peers: &Vec<[u8; 32]>, payload: &[u8]) -> (r:
        (u64, u64, Vec<bool>))
        requires
            old(self).metrics().messages_propagated + peers@.len() <= u64::MAX,
            old(self).metrics().successful_peers + peers@.len() <= u64::MAX,
            old(self).metrics().failed_peers + peers@.len() <= u64::MAX,
        ensures
            r.2@.len() == peers@.len(),
            forall|i: int| 0 <= i < peers@.len() ==> peer_outcome(network, &peers@[i], payload, message_id, #[trigger] r.2@[i]),
            r.0 == count_true(r.2@),
            r.0 + r.1 == peers@.len(),
            final(self).metrics().messages_propagated == old(self).metrics().messages_propagated + r.0,
            final(self).metrics().successful_peers == old(self).metrics().successful_peers + r.0,
            final(self).metrics().failed_peers == old(self).metrics().failed_peers + r.1,
            forall|x: [u8; 32]| #[trigger] final(self).state_of(x) == if x == message_id {
                Some(if r.0 > 0 { MessageState::Propagated } else { MessageState::Failed })
            } else {
                old(self).state_of(x)
            },
            forall|x: [u8; 32]| final(self).active().contains(x) <==> old(self).active().contains(x) && x != message_id,
            final(self).seen() == old(self).seen(),
            final(self).max_active() == old(self).max_active(),
    {
        let mut ok: u64 = 0;
        let mut failed: u64 = 0;
        let mut outcomes: Vec<bool> = Vec::new();
        let n = peers.len();
        for i in 0..n
            invariant
                n == peers@.len(),
                ok + failed == i,
                outcomes@.len() == i,
                ok == count_true(outcomes@),
                forall|j: int| 0 <= j < i ==> peer_outcome(network, &peers@[j], payload, message_id, #[trigger] outcomes@[j]),
                self.metrics().messages_propagated == old(self).metrics().messages_propagated + ok,
                self.metrics().successful_peers == old(self).metrics().successful_peers,
                self.metrics().failed_peers == old(self).metrics().failed_peers,
                old(self).metrics().messages_propagated + peers@.len() <= u64::MAX,
                old(self).metrics().successful_peers + peers@.len() <= u64::MAX,
                old(self).metrics().failed_peers + peers@.len() <= u64::MAX,
                self.seen() == old(self).seen(),
                self.active() == old(self).active(),
                self.max_active() == old(self).max_active(),
                self.metrics().active_propagations == old(self).metrics().active_propagations,
                self.metrics().messages_seen == old(self).metrics().messages_seen,
                self.metrics().battery_rejections == old(self).metrics().battery_rejections,
                forall|x: [u8; 32]| #[trigger] self.state_of(x) == old(self).state_of(x),
        {
            let sent = self.propagate_to_peer(network, message_id, &peers[i], payload);
            let took = sent.is_ok();
            proof {
                if let Err(e) = sent {
                    if call_ensures(N::send_message, (network, &peers@[i as int], payload), Err::<(), SystemError>(e)) {
                        assert(peer_outcome(network, &peers@[i as int], payload, message_id, false));
                    }
                }
            }
            let ghost before = outcomes@;
            outcomes.push(took);
            assert(outcomes@.drop_last() == before);
            if took {
                ok = ok + 1;
            } else {
                failed = failed + 1;
            }
        }
        self.finish(message_id, ok, failed);
        (ok, failed, outcomes)
    }

    /// Records how sending message `id` went: it is `Propagated` when some
    /// peer took it and `Failed` otherwise, and is no longer active.
    pub fn finish(&mut self, id: [u8; 32], successful_peers: u64, failed_peers: u64)
        requires
            old(self).metrics().successful_peers + successful_peers <= u64::MAX,
            old(self).metrics().failed_peers + failed_peers <= u64::MAX,
        ensures
            forall|x: [u8; 32]| #[trigger] final(self).state_of(x) == if x == id {
                Some(if successful_peers > 0 { MessageState::Propagated } else { MessageState::Failed })
            } else {
                old(self).state_of(x)
            },
            forall|x: [u8; 32]| final(self).active().contains(x) <==> old(self).active().contains(x) && x != id,
            final(self).seen() == old(self).seen(),
            final(self).max_active() == old(self).max_active(),
            final(self).metrics().successful_peers == old(self).metrics().successful_peers + successful_peers,
            final(self).metrics().failed_peers == old(self).metrics().failed_peers + failed_peers,
            final(self).metrics().active_propagations == if old(self).metrics().active_propagations > 0 {
                old(self).metrics().active_propagations - 1
            } else {
                0
            },
            final(self).metrics().messages_seen == old(self).metrics().messages_seen,
            final(self).metrics().messages_propagated == old(self).metrics().messages_propagated,
            final(self).metrics().battery_rejections == old(self).metrics().battery_rejections,
    {
        self.metrics.successful_peers = self.metrics.successful_peers + successful_peers;
        self.metrics.failed_peers = self.metrics.failed_peers + failed_peers;
        let state = if successful_peers > 0 {
            MessageState::Propagated
        } else {
            MessageState::Failed
        };
        self.set_state(id, state);
        self.metrics.active_propagations = self.metrics.active_propagations.saturating_sub(1);
        let mut remaining: Vec<[u8; 32]> = Vec::new();
        let n = self.active.len();
        for i in 0..n
            invariant
                n == self.active@.len(),
                remaining@ == without(self.active@.take(i as int), id),
        {
            let a = self.active[i];
            assert(self.active@.take(i + 1).drop_last() == self.active@.take(i as int));
            assert(self.active@.take(i + 1).last() == a);
            if !crate::btc::bytes32_eq(&a, &id) {
                remaining.push(a);
            }
        }
        proof {
            assert(self.active@.take(n as int) == self.active@);
            assert forall|x: [u8; 32]| remaining@.contains(x) <==> self.active@.contains(x) && x != id by {
                lemma_without_contains(self.active@, id, x);
            }
        }
        self.active = remaining;
    }

    /// The state of a message; `Unknown` for one never taken on.
    pub fn get_message_state(&self, id: &[u8; 32]) -> (r: MessageState)
        ensures
            r == match self.state_of(*id) {
                Some(s) => s,
                None => MessageState::Unknown,
            },
    {
        let n = self.message_states.len();
        for i in 0..n
            invariant
                n == self.message_states@.len(),
                forall|j: int| 0 <= j < i ==> (#[trigger] self.message_states@[j]).0 != *id,
        {
            if crate::btc::bytes32_eq(&self.message_states[i].0, id) {
                proof {
                    lemma_lookup_first_absent(self.message_states@.take(i as int), *id);
                    lemma_lookup_first_found(self.message_states@, *id, i as int);
                }
                return self.message_states[i].1;
            }
        }
        proof { lemma_lookup_first_absent(self.message_states@, *id); }
        MessageState::Unknown
    }

    /// The counters.
    pub fn get_metrics(&self) -> (r: PropagationMetrics)
        ensures
            r == self.metrics(),
    {
        self.metrics
    }
}

} // verus!
