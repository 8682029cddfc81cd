use vstd::prelude::*;

use crate::errors::SystemError;
use crate::kv::{lookup_first, position32, upsert32};
use crate::peer_sync::no_repeats;
use crate::replication::{contains32, copy_hashes};

verus! {

/// Target number of copies of each state.
pub const TARGET_REDUNDANCY: usize = 3;

/// Most copies of a state worth keeping.
pub const MAX_REDUNDANCY: usize = 5;

/// The states of a node (or nodes of a state) a table gives: none when the
/// key is absent.
pub open spec fn members(table: Seq<([u8; 32], Vec<[u8; 32]>)>, k: [u8; 32]) -> Seq<[u8; 32]> {
    match lookup_first(table, k) {
        Some(v) => v@,
        None => Seq::empty(),
    }
}

/// Every list in a table is without repeats.
pub open spec fn lists_no_repeats(table: Seq<([u8; 32], Vec<[u8; 32]>)>) -> bool {
    forall|k: [u8; 32]| #[trigger] no_repeats(members(table, k))
}

/// The members of `a` that `b` also has, in `a`'s order.
pub open spec fn shared(a: Seq<[u8; 32]>, b: Seq<[u8; 32]>) -> Seq<[u8; 32]> {
    a.filter(|x: [u8; 32]| b.contains(x))
}

/// How many distinct members `a` and `b` have together: those of `a`, and
/// those of `b` that `a` lacks.
pub open spec fn union_size(a: Seq<[u8; 32]>, b: Seq<[u8; 32]>) -> nat {
    a.len() + b.filter(|x: [u8; 32]| !a.contains(x)).len()
}

/// Which node keeps which state, both ways round. The overlap scores drawn
/// from these counts are fractions, which the caller works out.
pub struct StorageOverlapManager {
    node_responsibilities: Vec<([u8; 32], Vec<[u8; 32]>)>,
    state_assignments: Vec<([u8; 32], Vec<[u8; 32]>)>,
    target_redundancy: usize,
}

impl StorageOverlapManager {
    /// The states a node keeps.
    pub closed spec fn states_of(&self, node: [u8; 32]) -> Seq<[u8; 32]> {
        members(self.node_responsibilities@, node)
    }

    /// The nodes that keep states, in the order they were first assigned.
    pub closed spec fn nodes(&self) -> Seq<[u8; 32]> {
        self.node_responsibilities@.map_values(|e: ([u8; 32], Vec<[u8; 32]>)| e.0)
    }

    /// Whether a node keeps any states.
    pub closed spec fn has_node(&self, node: [u8; 32]) -> bool {
        lookup_first(self.node_responsibilities@, node) is Some
    }

    /// The nodes that keep a state.
    pub closed spec fn nodes_of(&self, state: [u8; 32]) -> Seq<[u8; 32]> {
        members(self.state_assignments@, state)
    }

    /// The states assigned to at least one node.
    pub closed spec fn assigned_states(&self) -> Seq<[u8; 32]> {
        self.state_assignments@.map_values(|e: ([u8; 32], Vec<[u8; 32]>)| e.0)
    }

    /// The copies wanted of each state.
    pub closed spec fn target(&self) -> usize {
        self.target_redundancy
    }

    /// No list holds a member twice.
    pub closed spec fn wf(&self) -> bool {
        &&& lists_no_repeats(self.node_responsibilities@)
        &&& lists_no_repeats(self.state_assignments@)
    }

    /// A manager wanting `target_redundancy` copies of each state, with no
    /// assignments.
    pub fn new(target_redundancy: usize) -> (r: Self)
        ensures
            r.wf(),
            r.target() == target_redundancy,
            forall|n: [u8; 32]| #[trigger] r.states_of(n).len() == 0 && !r.has_node(n),
            forall|s: [u8; 32]| #[trigger] r.nodes_of(s).len() == 0,
            r.assigned_states().len() == 0,
    {
        StorageOverlapManager { node_responsibilities: Vec::new(), state_assignments: Vec::new(), target_redundancy }
    }

    /// Makes a node keep a state: the state joins the node's states and the
    /// node joins the state's nodes, each once.
    pub fn assign_state(&mut self, state_id: [u8; 32], node_id: [u8; 32]) -> (r: Result<(), SystemError>)
        requires
            old(self).wf(),
        ensures
            r is Ok,
            final(self).wf(),
            final(self).target() == old(self).target(),
            forall|n: [u8; 32]| #[trigger] final(self).states_of(n).to_set() == if n == node_id {
                old(self).states_of(n).to_set().insert(state_id)
            } else {
                old(self).states_of(n).to_set()
            },
            forall|n: [u8; 32]| #[trigger] final(self).has_node(n) == (n == node_id || old(self).has_node(n)),
            forall|s: [u8; 32]| #[trigger] final(self).nodes_of(s).to_set() == if s == state_id {
                old(self).nodes_of(s).to_set().insert(node_id)
            } else {
                old(self).nodes_of(s).to_set()
            },
    {
        add_member(&mut self.node_responsibilities, node_id, state_id);
        add_member(&mut self.state_assignments, state_id, node_id);
        Ok(())
    }

    /// The states a node keeps.
    fn states_list(&self, node: &[u8; 32]) -> (r: Vec<[u8; 32]>)
        ensures
            r@ == self.states_of(*node),
    {
        match position32(&self.node_responsibilities, node) {
            Some(i) => copy_hashes(&self.node_responsibilities[i].1),
            None => Vec::new(),
        }
    }

    /// The states two nodes both keep, in the first node's order.
    pub fn shared_states(&self, node1: [u8; 32], node2: [u8; 32]) -> (r: Vec<[u8; 32]>)
        ensures
            r@ == shared(self.states_of(node1), self.states_of(node2)),
    {
        let a = self.states_list(&node1);
        let b = self.states_list(&node2);
        let ghost pred = |x: [u8; 32]| b@.contains(x);
        let mut out: Vec<[u8; 32]> = Vec::new();
        let n = a.len();
        for i in 0..n
            invariant
                n == a@.len(),
                pred == (|x: [u8; 32]| b@.contains(x)),
                out@ == a@.take(i as int).filter(pred),
        {
            let x = a[i];
            proof {
                assert(a@.take(i + 1) == a@.take(i as int).push(x));
                a@.take(i as int).lemma_filter_push(x, pred);
            }
            if contains32(&b, &x) {
                out.push(x);
            }
        }
        assert(a@.take(n as int) == a@);
        out
    }

    /// For two nodes that both keep states: how many states they share and
    /// how many they keep between them (at most `usize::MAX`). `None` when
    /// either keeps none, where the overlap score is zero.
    pub fn overlap_counts(&self, node1: [u8; 32], node2: [u8; 32]) -> (r: Option<(usize, usize)>)
        ensures
            !(self.has_node(node1) && self.has_node(node2)) ==> r is None,
            self.has_node(node1) && self.has_node(node2) ==> r == Some(
                (
                    shared(self.states_of(node1), self.states_of(node2)).len() as usize,
                    if union_size(self.states_of(node1), self.states_of(node2)) <= usize::MAX {
                        union_size(self.states_of(node1), self.states_of(node2)) as usize
                    } else {
                        usize::MAX
                    },
                ),
            ),
    {
        if position32(&self.node_responsibilities, &node1).is_none() || position32(
            &self.node_responsibilities,
            &node2,
        ).is_none() {
            return None;
        }
        let a = self.states_list(&node1);
        let b = self.states_list(&node2);
        let common = self.shared_states(node1, node2);
        let ghost pred = |x: [u8; 32]| !a@.contains(x);
        let mut extra: usize = 0;
        let n = b.len();
        for i in 0..n
            invariant
                n == b@.len(),
                pred == (|x: [u8; 32]| !a@.contains(x)),
                extra == b@.take(i as int).filter(pred).len(),
                extra <= i,
        {
            let x = b[i];
            proof {
                assert(b@.take(i + 1) == b@.take(i as int).push(x));
                b@.take(i as int).lemma_filter_push(x, pred);
            }
            if !contains32(&a, &x) {
                extra = extra + 1;
            }
        }
        assert(b@.take(n as int) == b@);
        proof {
            lemma_union_size_fits(a@, b@);
        }
        let total = if extra > usize::MAX - a.len() {
            usize::MAX
        } else {
            a.len() + extra
        };
        Some((common.len(), total))
    }

    /// The nodes that keep states, in the order they were first assigned.
    pub fn node_ids(&self) -> (r: Vec<[u8; 32]>)
        ensures
            r@ == self.nodes(),
            forall|n: [u8; 32]| self.has_node(n) ==> r@.contains(n),
    {
        let mut out: Vec<[u8; 32]> = Vec::new();
        let n = self.node_responsibilities.len();
        for i in 0..n
            invariant
                n == self.node_responsibilities@.len(),
                out@ == self.node_responsibilities@.take(i as int).map_values(|e: ([u8; 32], Vec<[u8; 32]>)| e.0),
        {
            out.push(self.node_responsibilities[i].0);
            assert(self.node_responsibilities@.take(i + 1).map_values(|e: ([u8; 32], Vec<[u8; 32]>)| e.0)
                =~= self.node_responsibilities@.take(i as int).map_values(|e: ([u8; 32], Vec<[u8; 32]>)| e.0).push(
                self.node_responsibilities@[i as int].0,
            ));
        }
        assert(self.node_responsibilities@.take(n as int) == self.node_responsibilities@);
        proof {
            assert forall|k: [u8; 32]| self.has_node(k) implies out@.contains(k) by {
                lemma_found_key_listed(self.node_responsibilities@, k);
            }
        }
        out
    }

    /// Whether some assigned state has fewer nodes than the target.
    pub fn under_replicated(&self) -> (r: bool)
        ensures
            r == exists|k: int|
                0 <= k < self.assigned_states().len() && #[trigger] self.nodes_of(self.assigned_states()[k]).len()
                    < self.target(),
    {
        let n = self.state_assignments.len();
        for i in 0..n
            invariant
                n == self.state_assignments@.len(),
                forall|k: int| 0 <= k < i ==> #[trigger] self.nodes_of(self.assigned_states()[k]).len() >= self.target(),
        {
            let key = self.state_assignments[i].0;
            let nodes = match position32(&self.state_assignments, &key) {
                Some(j) => self.state_assignments[j].1.len(),
                None => 0,
            };
            assert(self.assigned_states()[i as int] == key);
            if nodes < self.target_redundancy {
                assert(self.nodes_of(self.assigned_states()[i as int]).len() < self.target());
                return true;
            }
        }
        false
    }
}

/// The union of two lists fits in the sum of their lengths.
pub proof fn lemma_union_size_fits(a: Seq<[u8; 32]>, b: Seq<[u8; 32]>)
    ensures
        union_size(a, b) <= a.len() + b.len(),
{
    b.lemma_filter_len(|x: [u8; 32]| !a.contains(x));
}

/// Adds `member` to the list under `key`, once.
fn add_member(table: &mut Vec<([u8; 32], Vec<[u8; 32]>)>, key: [u8; 32], member: [u8; 32])
    requires
        lists_no_repeats(old(table)@),
    ensures
        lists_no_repeats(final(table)@),
        forall|k: [u8; 32]| #[trigger] members(final(table)@, k).to_set() == if k == key {
            members(old(table)@, k).to_set().insert(member)
        } else {
            members(old(table)@, k).to_set()
        },
        forall|k: [u8; 32]| #[trigger] lookup_first(final(table)@, k) is Some == (k == key || lookup_first(old(table)@, k) is Some),
{
    let ghost before = table@;
    let mut list: Vec<[u8; 32]> = match position32(table, &key) {
        Some(i) => copy_hashes(&table[i].1),
        None => Vec::new(),
    };
    assert(list@ == members(before, key));
    assert(no_repeats(members(before, key)));
    let ghost old_list = list@;
    if !contains32(&list, &member) {
        list.push(member);
        proof {
            old_list.lemma_push_to_set_commute(member);
            assert forall|i: int, j: int| 0 <= i < list@.len() && 0 <= j < list@.len() && i != j implies list@[i]
                != list@[j] by {
                if i == list@.len() - 1 {
                    assert(old_list[j] == list@[j]);
                } else if j == list@.len() - 1 {
                    assert(old_list[i] == list@[i]);
                }
            }
        }
    }
    assert(list@.to_set() =~= old_list.to_set().insert(member));
    let ghost new_list = list@;
    upsert32(table, key, list);
    proof {
        assert forall|k: [u8; 32]| #[trigger] no_repeats(members(table@, k)) by {
            if k == key {
                assert(members(table@, k) == new_list);
            } else {
                assert(members(table@, k) == members(before, k));
            }
        }
        assert forall|k: [u8; 32]| #[trigger] members(table@, k).to_set() == if k == key {
            members(before, k).to_set().insert(member)
        } else {
            members(before, k).to_set()
        } by {
            if k == key {
                assert(members(table@, k) == new_list);
            } else {
                assert(members(table@, k) == members(before, k));
            }
        }
    }
}

/// A key the table gives a value for is among its keys.
pub proof fn lemma_found_key_listed(table: Seq<([u8; 32], Vec<[u8; 32]>)>, k: [u8; 32])
    requires
        lookup_first(table, k) is Some,
    ensures
        table.map_values(|e: ([u8; 32], Vec<[u8; 32]>)| e.0).contains(k),
    decreases table.len(),
{
    let keys = table.map_values(|e: ([u8; 32], Vec<[u8; 32]>)| e.0);
    if lookup_first(table.drop_last(), k) is Some {
        lemma_found_key_listed(table.drop_last(), k);
        let kd = table.drop_last().map_values(|e: ([u8; 32], Vec<[u8; 32]>)| e.0);
        let j = choose|j: int| 0 <= j < kd.len() && kd[j] == k;
        assert(keys[j] == k);
    } else {
        assert(keys[table.len() - 1] == k);
    }
}

} // verus!
