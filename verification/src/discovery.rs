use vstd::prelude::*;

use crate::kv::{lemma_lookup_first_absent, lemma_lookup_first_found, lemma_lookup_first_push, lemma_lookup_first_update, lookup_first};

verus! {

/// A node's network address: an IPv6 address (IPv4 ones mapped into it) and
/// a port.
#[derive(Clone, Copy, Debug)]
pub struct NodeAddr {
    pub ip: [u8; 16],
    pub port: u16,
}

/// What is known of a node: whether it is active, when it was last seen and
/// its reputation.
#[derive(Clone, Copy, Debug)]
pub struct NodeInfo {
    pub active: bool,
    pub last_seen: u64,
    pub reputation: i32,
}

/// The nodes a node knows of, by address. Times are milliseconds of a
/// monotonic clock.
pub struct NodeDiscovery {
    known_nodes: Vec<(NodeAddr, NodeInfo)>,
    cleanup_interval: u64,
    inactive_threshold: u64,
}

/// Compares two addresses.
pub fn addr_eq(a: &NodeAddr, b: &NodeAddr) -> (r: bool)
    ensures
        r == (*a == *b),
{
    let mut i: usize = 0;
    while i < 16
        invariant
            i <= 16,
            a.ip@.len() == 16,
            b.ip@.len() == 16,
            forall|j: int| 0 <= j < i ==> a.ip@[j] == b.ip@[j],
        decreases 16 - i,
    {
        if a.ip[i] != b.ip[i] {
            assert(a.ip@[i as int] != b.ip@[i as int]);
            return false;
        }
        i = i + 1;
    }
    assert(a.ip =~= b.ip);
    a.port == b.port
}

impl NodeDiscovery {
    /// What is known of the node at `addr`.
    pub closed spec fn node(&self, addr: NodeAddr) -> Option<NodeInfo> {
        lookup_first(self.known_nodes@, addr)
    }

    /// How often inactive nodes are cleaned up.
    pub closed spec fn cleanup_interval_ms(&self) -> u64 {
        self.cleanup_interval
    }

    /// How long a node may stay silent before it counts as inactive.
    pub closed spec fn inactive_threshold_ms(&self) -> u64 {
        self.inactive_threshold
    }

    /// Knows no node; cleans up every five minutes; a node is inactive after
    /// an hour of silence.
    pub fn new() -> (r: Self)
        ensures
            forall|a: NodeAddr| #[trigger] r.node(a) is None,
            r.cleanup_interval_ms() == 300_000,
            r.inactive_threshold_ms() == 3_600_000,
    {
        NodeDiscovery { known_nodes: Vec::new(), cleanup_interval: 300_000, inactive_threshold: 3_600_000 }
    }

    /// The position of the first entry for `addr`.
    fn position(&self, addr: &NodeAddr) -> (r: Option<usize>)
        ensures
            r is None ==> lookup_first(self.known_nodes@, *addr) is None,
            r matches Some(i) ==> i < self.known_nodes@.len() && self.known_nodes@[i as int].0 == *addr
                && lookup_first(self.known_nodes@.take(i as int), *addr) is None,
    {
        let n = self.known_nodes.len();
        for i in 0..n
            invariant
                n == self.known_nodes@.len(),
                forall|j: int| 0 <= j < i ==> (#[trigger] self.known_nodes@[j]).0 != *addr,
        {
            if addr_eq(&self.known_nodes[i].0, addr) {
                proof { lemma_lookup_first_absent(self.known_nodes@.take(i as int), *addr); }
                return Some(i);
            }
        }
        proof { lemma_lookup_first_absent(self.known_nodes@, *addr); }
        None
    }

    /// Records the node at `addr` as active, seen at `now`, with reputation
    /// zero, replacing what was known of it.
    pub fn add_node(&mut self, addr: NodeAddr, now: u64)
        ensures
            forall|a: NodeAddr|
                #[trigger] final(self).node(a) == if a == addr {
                    Some(NodeInfo { active: true, last_seen: now, reputation: 0 })
                } else {
                    old(self).node(a)
                },
            final(self).cleanup_interval_ms() == old(self).cleanup_interval_ms(),
            final(self).inactive_threshold_ms() == old(self).inactive_threshold_ms(),
    {
        let info = NodeInfo { active: true, last_seen: now, reputation: 0 };
        let ghost before = self.known_nodes@;
        match self.position(&addr) {
            Some(i) => {
                self.known_nodes.set(i, (addr, info));
                proof {
                    assert forall|a: NodeAddr| #[trigger] lookup_first(self.known_nodes@, a) == if a == addr {
                        Some(info)
                    } else {
                        lookup_first(before, a)
                    } by {
                        lemma_lookup_first_update(before, addr, info, i as int, a);
                    }
                }
            },
            None => {
                self.known_nodes.push((addr, info));
                proof {
                    assert forall|a: NodeAddr| #[trigger] lookup_first(self.known_nodes@, a) == if a == addr {
                        Some(info)
                    } else {
                        lookup_first(before, a)
                    } by {
                        lemma_lookup_first_push(before, addr, info, a);
                    }
                }
            },
        }
    }

    /// Marks a known node at `addr` active and seen at `now`, keeping its
    /// reputation; an unknown address changes nothing.
    pub fn update_node(&mut self, addr: NodeAddr, now: u64)
        ensures
            forall|a: NodeAddr|
                #[trigger] final(self).node(a) == if a == addr && old(self).node(a) is Some {
                    Some(NodeInfo { active: true, last_seen: now, reputation: old(self).node(a)->0.reputation })
                } else {
                    old(self).node(a)
                },
            final(self).cleanup_interval_ms() == old(self).cleanup_interval_ms(),
            final(self).inactive_threshold_ms() == old(self).inactive_threshold_ms(),
    {
        let ghost before = self.known_nodes@;
        if let Some(i) = self.position(&addr) {
            proof { lemma_lookup_first_found(before, addr, i as int); }
            let reputation = self.known_nodes[i].1.reputation;
            let info = NodeInfo { active: true, last_seen: now, reputation };
            self.known_nodes.set(i, (addr, info));
            proof {
                assert forall|a: NodeAddr| #[trigger] lookup_first(self.known_nodes@, a) == if a == addr {
                    Some(info)
                } else {
                    lookup_first(before, a)
                } by {
                    lemma_lookup_first_update(before, addr, info, i as int, a);
                }
            }
        }
    }

    /// Marks each known node among `addrs` active and seen at `now`.
    pub fn update_nodes_batch(&mut self, addrs: &Vec<NodeAddr>, now: u64)
        ensures
            forall|a: NodeAddr|
                #[trigger] final(self).node(a) == if addrs@.contains(a) && old(self).node(a) is Some {
                    Some(NodeInfo { active: true, last_seen: now, reputation: old(self).node(a)->0.reputation })
                } else {
                    old(self).node(a)
                },
            final(self).cleanup_interval_ms() == old(self).cleanup_interval_ms(),
            final(self).inactive_threshold_ms() == old(self).inactive_threshold_ms(),
    {
        let n = addrs.len();
        for k in 0..n
            invariant
                n == addrs@.len(),
                forall|a: NodeAddr|
                    #[trigger] self.node(a) == if addrs@.take(k as int).contains(a) && old(self).node(a) is Some {
                        Some(NodeInfo { active: true, last_seen: now, reputation: old(self).node(a)->0.reputation })
                    } else {
                        old(self).node(a)
                    },
                self.cleanup_interval == old(self).cleanup_interval,
                self.inactive_threshold == old(self).inactive_threshold,
        {
            let ghost mid = *self;
            self.update_node(addrs[k], now);
            proof {
                assert forall|a: NodeAddr| #[trigger] self.node(a) == if addrs@.take(k + 1).contains(a) && old(self).node(
                    a,
                ) is Some {
                    Some(NodeInfo { active: true, last_seen: now, reputation: old(self).node(a)->0.reputation })
                } else {
                    old(self).node(a)
                } by {
                    let prev = addrs@.take(k as int);
                    let next = addrs@.take(k + 1);
                    assert(next == prev.push(addrs@[k as int]));
                    if a == addrs@[k as int] {
                        assert(next[k as int] == a);
                    } else {
                        if next.contains(a) {
                            let m = choose|m: int| 0 <= m < next.len() && next[m] == a;
                            assert(prev[m] == a);
                        }
                        if prev.contains(a) {
                            let m = choose|m: int| 0 <= m < prev.len() && prev[m] == a;
                            assert(next[m] == a);
                        }
                    }
                    assert(mid.node(a) == if addrs@.take(k as int).contains(a) && old(self).node(a) is Some {
                        Some(NodeInfo { active: true, last_seen: now, reputation: old(self).node(a)->0.reputation })
                    } else {
                        old(self).node(a)
                    });
                }
            }
        }
        assert(addrs@.take(n as int) == addrs@);
    }

    /// What is known of the node at `addr`.
    pub fn get_node_info(&self, addr: &NodeAddr) -> (r: Option<NodeInfo>)
        ensures
            r == self.node(*addr),
    {
        match self.position(addr) {
            Some(i) => {
                proof { lemma_lookup_first_found(self.known_nodes@, *addr, i as int); }
                Some(self.known_nodes[i].1)
            },
            None => None,
        }
    }
}

/// What a read gives back of a write: right after a node is added, looking
/// it up gives it active, seen then, with reputation zero; other addresses
/// keep what they had.
pub proof fn lemma_read_after_add(before: NodeDiscovery, after: NodeDiscovery, addr: NodeAddr, now: u64, other: NodeAddr)
    requires
        forall|a: NodeAddr|
            #[trigger] after.node(a) == if a == addr {
                Some(NodeInfo { active: true, last_seen: now, reputation: 0 })
            } else {
                before.node(a)
            },
    ensures
        after.node(addr) == Some(NodeInfo { active: true, last_seen: now, reputation: 0 }),
        other != addr ==> after.node(other) == before.node(other),
{
    assert(after.node(addr) == Some(NodeInfo { active: true, last_seen: now, reputation: 0 }));
    assert(after.node(other) == if other == addr {
        Some(NodeInfo { active: true, last_seen: now, reputation: 0 })
    } else {
        before.node(other)
    });
}

} // verus!
