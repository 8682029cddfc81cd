use vstd::prelude::*;

use crate::errors::{SystemError, SystemErrorType};
use crate::kv::{lookup_first, position32, upsert32};
use crate::node_types::StateType;

verus! {

/// A node of a binary Merkle tree: an optional hash, optional payload bytes
/// and two optional children.
#[derive(Debug)]
pub struct MerkleNode {
    pub hash: Option<[u8; 32]>,
    pub data: Option<Vec<u8>>,
    pub left: Option<Box<MerkleNode>>,
    pub right: Option<Box<MerkleNode>>,
}

/// A node with nothing in it.
pub open spec fn empty_node() -> MerkleNode {
    MerkleNode { hash: None, data: None, left: None, right: None }
}

impl MerkleNode {
    /// A node with this hash and no payload or children.
    pub fn leaf(hash: [u8; 32]) -> (r: Self)
        ensures
            r == (MerkleNode { hash: Some(hash), data: None, left: None, right: None }),
    {
        MerkleNode { hash: Some(hash), data: None, left: None, right: None }
    }

    /// A node with nothing in it.
    pub fn empty() -> (r: Self)
        ensures
            r == empty_node(),
    {
        MerkleNode { hash: None, data: None, left: None, right: None }
    }
}

/// The hash of a node as a list of zero or one entries.
pub open spec fn hash_entries(h: Option<[u8; 32]>) -> Seq<[u8; 32]> {
    match h {
        Some(x) => seq![x],
        None => Seq::empty(),
    }
}

/// The proof for `t` in a tree: the first node met in pre-order (node, left
/// subtree, right subtree) whose hash is `t`, gives `t`; each ancestor on the
/// way back up adds its own hash when it has one. `None` when no node has
/// hash `t`.
pub open spec fn proof_path(node: MerkleNode, t: [u8; 32]) -> Option<Seq<[u8; 32]>>
    decreases node,
{
    if node.hash == Some(t) {
        Some(seq![t])
    } else {
        let from_left = match node.left {
            Some(l) => proof_path(*l, t),
            None => None,
        };
        let below = match from_left {
            Some(p) => Some(p),
            None => match node.right {
                Some(r) => proof_path(*r, t),
                None => None,
            },
        };
        match below {
            Some(p) => Some(p + hash_entries(node.hash)),
            None => None,
        }
    }
}

/// Bit `i` of a 256-bit path, most significant bit of the first byte first:
/// `true` means right.
pub open spec fn path_bit(path: [u8; 32], i: int) -> bool {
    (path[i / 8] >> ((7 - i % 8) as u8)) & 1u8 == 1u8
}

/// The tree after placing `new_node` along `path` from depth `i`: follow the
/// path's bits down while the child on that side exists; the first missing
/// child becomes `new_node`. After all 256 bits, nothing changes.
pub open spec fn insert_along(node: MerkleNode, path: [u8; 32], i: int, new_node: MerkleNode) -> MerkleNode
    decreases 256 - i,
{
    if i >= 256 || i < 0 {
        node
    } else if !path_bit(path, i) {
        match node.left {
            None => MerkleNode { left: Some(Box::new(new_node)), ..node },
            Some(l) => MerkleNode { left: Some(Box::new(insert_along(*l, path, i + 1, new_node))), ..node },
        }
    } else {
        match node.right {
            None => MerkleNode { right: Some(Box::new(new_node)), ..node },
            Some(r) => MerkleNode { right: Some(Box::new(insert_along(*r, path, i + 1, new_node))), ..node },
        }
    }
}

/// Searches a tree for `target` and, when found, appends its proof path.
pub fn collect_proof_nodes(node: &MerkleNode, target: &[u8; 32], proof: &mut Vec<[u8; 32]>) -> (r: Result<
    bool,
    SystemError,
>)
    ensures
        r matches Ok(found) && found == proof_path(*node, *target) is Some,
        proof_path(*node, *target) matches Some(p) ==> final(proof)@ == old(proof)@ + p,
        proof_path(*node, *target) is None ==> final(proof)@ == old(proof)@,
    decreases node,
{
    if let Some(h) = node.hash {
        if crate::btc::bytes32_eq(&h, target) {
            proof.push(h);
            return Ok(true);
        }
    }
    if let Some(left) = &node.left {
        let found = collect_proof_nodes(left, target, proof);
        if let Ok(true) = found {
            if let Some(h) = node.hash {
                proof.push(h);
            }
            return Ok(true);
        }
    }
    if let Some(right) = &node.right {
        let found = collect_proof_nodes(right, target, proof);
        if let Ok(true) = found {
            if let Some(h) = node.hash {
                proof.push(h);
            }
            return Ok(true);
        }
    }
    Ok(false)
}

/// Bit `i` of a path, as `path_bit` states it.
fn path_bit_at(path: &[u8; 32], i: usize) -> (r: bool)
    requires
        i < 256,
    ensures
        r == path_bit(*path, i as int),
{
    let byte = path[i / 8];
    let shift: u8 = (7 - (i % 8)) as u8;
    (byte >> shift) & 1u8 == 1u8
}

/// Places `new_node` along `path` from depth `i`, as `insert_along` states.
pub fn insert_merkle_node(node: &mut MerkleNode, path: &[u8; 32], i: usize, new_node: MerkleNode)
    requires
        i <= 256,
    ensures
        *final(node) == insert_along(*old(node), *path, i as int, new_node),
    decreases 256 - i,
{
    if i >= 256 {
        return ;
    }
    if !path_bit_at(path, i) {
        match node.left.take() {
            None => {
                node.left = Some(Box::new(new_node));
            },
            Some(mut l) => {
                insert_merkle_node(&mut *l, path, i + 1, new_node);
                node.left = Some(l);
            },
        }
    } else {
        match node.right.take() {
            None => {
                node.right = Some(Box::new(new_node));
            },
            Some(mut r) => {
                insert_merkle_node(&mut *r, path, i + 1, new_node);
                node.right = Some(r);
            },
        }
    }
}

/// Counts kept by the state manager.
#[derive(Clone, Copy, Debug)]
pub struct StateMetrics {
    pub total_states: usize,
    pub wallet_states: usize,
    pub intermediate_states: usize,
    pub state_updates: u64,
    pub merkle_updates: u64,
}

impl StateMetrics {
    /// All counts zero.
    pub fn zero() -> (r: Self)
        ensures
            r == (StateMetrics {
                total_states: 0,
                wallet_states: 0,
                intermediate_states: 0,
                state_updates: 0,
                merkle_updates: 0,
            }),
    {
        StateMetrics { total_states: 0, wallet_states: 0, intermediate_states: 0, state_updates: 0, merkle_updates: 0 }
    }
}

/// A replicated state: its hash, its level and the manager's counts.
#[derive(Clone, Copy, Debug)]
pub struct ReplicationState {
    pub state_hash: [u8; 32],
    pub state_type: StateType,
    pub state_metrics: StateMetrics,
}

/// A state as the consistency check sees it.
#[derive(Clone, Copy, Debug)]
pub struct ConsistencyState {
    pub state_hash: [u8; 32],
    pub state_type: StateType,
    pub state_metrics: StateMetrics,
}

/// A state as distribution sees it.
#[derive(Clone, Copy, Debug)]
pub struct DistributionState {
    pub state_hash: [u8; 32],
    pub state_type: StateType,
    pub state_metrics: StateMetrics,
}

/// The first stored wallet proof, in order, that holds `h`.
pub open spec fn first_wallet_proof(s: Seq<([u8; 32], Vec<[u8; 32]>)>, h: [u8; 32]) -> Option<Seq<[u8; 32]>>
    decreases s.len(),
{
    if s.len() == 0 {
        None
    } else {
        match first_wallet_proof(s.drop_last(), h) {
            Some(p) => Some(p),
            None => if s.last().1@.contains(h) {
                Some(s.last().1@)
            } else {
                None
            },
        }
    }
}

/// The proof path for `t` in the first tree, in order, that has it.
pub open spec fn first_tree_path(s: Seq<([u8; 32], MerkleNode)>, t: [u8; 32]) -> Option<Seq<[u8; 32]>>
    decreases s.len(),
{
    if s.len() == 0 {
        None
    } else {
        match first_tree_path(s.drop_last(), t) {
            Some(p) => Some(p),
            None => proof_path(s.last().1, t),
        }
    }
}

/// The proof the state manager gives for a state hash, by the state's level:
/// a wallet state's stored proof, an intermediate state's path in its tree,
/// or the hash alone for the root. `None` when none can be given.
pub open spec fn spec_state_proof(
    level: Option<StateType>,
    wallets: Seq<([u8; 32], Vec<[u8; 32]>)>,
    trees: Seq<([u8; 32], MerkleNode)>,
    h: [u8; 32],
) -> Option<Seq<[u8; 32]>> {
    match level {
        None => None,
        Some(StateType::Wallet) => first_wallet_proof(wallets, h),
        Some(StateType::Intermediate) => first_tree_path(trees, h),
        Some(StateType::Root) => Some(seq![h]),
    }
}

/// Which states exist at which level, with the wallet proofs and the
/// intermediate trees that prove them.
pub struct StateManager {
    wallet_proofs: Vec<([u8; 32], Vec<[u8; 32]>)>,
    intermediate_trees: Vec<([u8; 32], MerkleNode)>,
    root_tree: MerkleNode,
    state_hashes: Vec<([u8; 32], StateType)>,
    metrics: StateMetrics,
}

impl StateManager {
    /// The level recorded for a state hash.
    pub closed spec fn level(&self, h: [u8; 32]) -> Option<StateType> {
        lookup_first(self.state_hashes@, h)
    }

    /// The stored wallet proofs, by wallet id.
    pub closed spec fn wallet_entries(&self) -> Seq<([u8; 32], Vec<[u8; 32]>)> {
        self.wallet_proofs@
    }

    /// The intermediate trees, by contract id.
    pub closed spec fn trees(&self) -> Seq<([u8; 32], MerkleNode)> {
        self.intermediate_trees@
    }

    /// The root tree.
    pub closed spec fn root(&self) -> MerkleNode {
        self.root_tree
    }

    /// The counts.
    pub closed spec fn metrics(&self) -> StateMetrics {
        self.metrics
    }

    /// The proof this manager gives for a state hash.
    pub open spec fn proof_for(&self, h: [u8; 32]) -> Option<Seq<[u8; 32]>> {
        spec_state_proof(self.level(h), self.wallet_entries(), self.trees(), h)
    }

    /// A manager with no states and zero counts.
    pub fn new() -> (r: Self)
        ensures
            forall|h: [u8; 32]| #[trigger] r.level(h) is None,
            r.wallet_entries().len() == 0,
            r.trees().len() == 0,
            r.root().hash is None && r.root().data is None && r.root().left is None && r.root().right is None,
            r.metrics() == (StateMetrics {
                total_states: 0,
                wallet_states: 0,
                intermediate_states: 0,
                state_updates: 0,
                merkle_updates: 0,
            }),
    {
        StateManager {
            wallet_proofs: Vec::new(),
            intermediate_trees: Vec::new(),
            root_tree: MerkleNode::empty(),
            state_hashes: Vec::new(),
            metrics: StateMetrics::zero(),
        }
    }

    /// The hash of a state, from its serialized bytes: their SHA-256 digest.
    pub fn compute_state_hash(&self, serialized_state: &[u8]) -> (r: Result<[u8; 32], SystemError>)
        ensures
            r matches Ok(h) && h@ == crate::hashing::spec_sha256(serialized_state@),
    {
        Ok(crate::hashing::sha256_digest(serialized_state))
    }

    /// Places `new_node` in `tree` along `path` and counts the update.
    pub fn update_merkle_tree(&mut self, tree: &mut MerkleNode, path: [u8; 32], new_node: MerkleNode) -> (r: Result<
        (),
        SystemError,
    >)
        requires
            old(self).metrics().merkle_updates < u64::MAX,
        ensures
            r is Ok,
            *final(tree) == insert_along(*old(tree), path, 0, new_node),
            final(self).metrics() == (StateMetrics {
                merkle_updates: (old(self).metrics().merkle_updates + 1) as u64,
                ..old(self).metrics()
            }),
            forall|h: [u8; 32]| #[trigger] final(self).level(h) == old(self).level(h),
            final(self).wallet_entries() == old(self).wallet_entries(),
            final(self).trees() == old(self).trees(),
            final(self).root() == old(self).root(),
    {
        insert_merkle_node(tree, &path, 0, new_node);
        self.metrics.merkle_updates = self.metrics.merkle_updates + 1;
        Ok(())
    }

    /// The proof path of a state hash in the first intermediate tree that
    /// holds it; refused when none does.
    pub fn generate_intermediate_proof(&self, state_hash: [u8; 32]) -> (r: Result<Vec<[u8; 32]>, SystemError>)
        ensures
            first_tree_path(self.trees(), state_hash) matches Some(p) ==> (r matches Ok(v) && v@ == p),
            first_tree_path(self.trees(), state_hash) is None ==> (r matches Err(e) && e.error_type
                == SystemErrorType::InvalidInput),
    {
        let mut proof: Vec<[u8; 32]> = Vec::new();
        let n = self.intermediate_trees.len();
        let mut i: usize = 0;
        while i < n
            invariant
                n == self.intermediate_trees@.len(),
                i <= n,
                first_tree_path(self.intermediate_trees@.take(i as int), state_hash) is None,
                proof@.len() == 0,
            decreases n - i,
        {
            assert(self.intermediate_trees@.take(i + 1).drop_last() == self.intermediate_trees@.take(i as int));
            let found = collect_proof_nodes(&self.intermediate_trees[i].1, &state_hash, &mut proof);
            if let Ok(true) = found {
                proof {
                    lemma_first_tree_path_extend(self.intermediate_trees@, state_hash, i as int + 1);
                }
                return Ok(proof);
            }
            i = i + 1;
        }
        assert(self.intermediate_trees@.take(n as int) == self.intermediate_trees@);
        Err(SystemError::new(SystemErrorType::InvalidInput, "State hash not found in intermediate trees"))
    }

    /// The proof for a recorded state hash: refused when the hash is unknown
    /// or no proof for it is held.
    pub fn generate_proof(&self, state_hash: [u8; 32]) -> (r: Result<Vec<[u8; 32]>, SystemError>)
        ensures
            self.proof_for(state_hash) matches Some(p) ==> (r matches Ok(v) && v@ == p),
            self.proof_for(state_hash) is None ==> (r matches Err(e) && e.error_type == SystemErrorType::InvalidInput),
    {
        let level = match position32(&self.state_hashes, &state_hash) {
            Some(i) => self.state_hashes[i].1,
            None => {
                return Err(SystemError::new(SystemErrorType::InvalidInput, "State hash not found"));
            },
        };
        match level {
            StateType::Wallet => self.find_wallet_proof(&state_hash),
            StateType::Intermediate => self.generate_intermediate_proof(state_hash),
            StateType::Root => {
                let mut v: Vec<[u8; 32]> = Vec::new();
                v.push(state_hash);
                Ok(v)
            },
        }
    }

    /// The first stored wallet proof that holds a hash.
    fn find_wallet_proof(&self, state_hash: &[u8; 32]) -> (r: Result<Vec<[u8; 32]>, SystemError>)
        ensures
            first_wallet_proof(self.wallet_proofs@, *state_hash) matches Some(p) ==> (r matches Ok(v) && v@ == p),
            first_wallet_proof(self.wallet_proofs@, *state_hash) is None ==> (r matches Err(e) && e.error_type
                == SystemErrorType::InvalidInput),
    {
        let n = self.wallet_proofs.len();
        for i in 0..n
            invariant
                n == self.wallet_proofs@.len(),
                first_wallet_proof(self.wallet_proofs@.take(i as int), *state_hash) is None,
        {
            assert(self.wallet_proofs@.take(i + 1).drop_last() == self.wallet_proofs@.take(i as int));
            if contains32(&self.wallet_proofs[i].1, state_hash) {
                proof {
                    lemma_first_wallet_proof_extend(self.wallet_proofs@, *state_hash, i as int + 1);
                }
                return Ok(copy_hashes(&self.wallet_proofs[i].1));
            }
        }
        assert(self.wallet_proofs@.take(n as int) == self.wallet_proofs@);
        Err(SystemError::new(SystemErrorType::InvalidInput, "Proof not found for wallet state"))
    }

    /// The tree held for a contract.
    pub open spec fn tree_of(&self, contract_id: [u8; 32]) -> Option<MerkleNode> {
        lookup_first(self.trees(), contract_id)
    }

    /// Records a wallet state from its serialized bytes, with its proof, and
    /// returns its hash. The wallet's proof becomes `proof`.
    pub fn update_wallet_state(&mut self, wallet_id: [u8; 32], serialized_state: &Vec<u8>, proof: Vec<[u8; 32]>) -> (r:
        Result<[u8; 32], SystemError>)
        requires
            old(self).metrics().total_states < usize::MAX,
            old(self).metrics().wallet_states < usize::MAX,
            old(self).metrics().state_updates < u64::MAX,
        ensures
            r matches Ok(h) && h@ == crate::hashing::spec_sha256(serialized_state@) && {
                &&& forall|x: [u8; 32]| #[trigger] final(self).level(x) == if x == h {
                    Some(StateType::Wallet)
                } else {
                    old(self).level(x)
                }
                &&& forall|w: [u8; 32]| #[trigger] lookup_first(final(self).wallet_entries(), w) == if w == wallet_id {
                    Some(proof)
                } else {
                    lookup_first(old(self).wallet_entries(), w)
                }
            },
            final(self).trees() == old(self).trees(),
            final(self).root() == old(self).root(),
            final(self).metrics() == (StateMetrics {
                total_states: (old(self).metrics().total_states + 1) as usize,
                wallet_states: (old(self).metrics().wallet_states + 1) as usize,
                state_updates: (old(self).metrics().state_updates + 1) as u64,
                ..old(self).metrics()
            }),
    {
        let h = crate::hashing::sha256_digest(serialized_state.as_slice());
        upsert32(&mut self.state_hashes, h, StateType::Wallet);
        upsert32(&mut self.wallet_proofs, wallet_id, proof);
        self.metrics.total_states = self.metrics.total_states + 1;
        self.metrics.wallet_states = self.metrics.wallet_states + 1;
        self.metrics.state_updates = self.metrics.state_updates + 1;
        Ok(h)
    }

    /// Records an intermediate state from its serialized bytes and returns its
    /// hash: a leaf with the hash is placed along the hash's own bits in the
    /// contract's tree (a new, empty-rooted tree when it has none).
    pub fn update_intermediate_state(&mut self, contract_id: [u8; 32], serialized_state: &Vec<u8>) -> (r: Result<
        [u8; 32],
        SystemError,
    >)
        requires
            old(self).metrics().total_states < usize::MAX,
            old(self).metrics().intermediate_states < usize::MAX,
            old(self).metrics().state_updates < u64::MAX,
            old(self).metrics().merkle_updates < u64::MAX,
        ensures
            r matches Ok(h) && h@ == crate::hashing::spec_sha256(serialized_state@) && {
                &&& forall|x: [u8; 32]| #[trigger] final(self).level(x) == if x == h {
                    Some(StateType::Intermediate)
                } else {
                    old(self).level(x)
                }
                &&& forall|c: [u8; 32]| #[trigger] final(self).tree_of(c) == if c == contract_id {
                    Some(
                        insert_along(
                            match old(self).tree_of(c) {
                                Some(t) => t,
                                None => empty_node(),
                            },
                            h,
                            0,
                            MerkleNode { hash: Some(h), data: None, left: None, right: None },
                        ),
                    )
                } else {
                    old(self).tree_of(c)
                }
            },
            final(self).wallet_entries() == old(self).wallet_entries(),
            final(self).root() == old(self).root(),
            final(self).metrics() == (StateMetrics {
                total_states: (old(self).metrics().total_states + 1) as usize,
                intermediate_states: (old(self).metrics().intermediate_states + 1) as usize,
                state_updates: (old(self).metrics().state_updates + 1) as u64,
                merkle_updates: (old(self).metrics().merkle_updates + 1) as u64,
                ..old(self).metrics()
            }),
    {
        let h = crate::hashing::sha256_digest(serialized_state.as_slice());
        let ghost before = self.intermediate_trees@;
        let pos = position32(&self.intermediate_trees, &contract_id);
        let mut tree = match pos {
            Some(i) => {
                let (_, t) = self.intermediate_trees.remove(i);
                self.intermediate_trees.insert(i, (contract_id, MerkleNode::empty()));
                proof {
                    assert(self.intermediate_trees@ =~= before.update(i as int, (contract_id, empty_node())));
                }
                t
            },
            None => MerkleNode::empty(),
        };
        let ghost start_tree = tree;
        insert_merkle_node(&mut tree, &h, 0, MerkleNode::leaf(h));
        self.metrics.merkle_updates = self.metrics.merkle_updates + 1;
        let ghost mid = self.intermediate_trees@;
        proof {
            assert(start_tree == match lookup_first(before, contract_id) {
                Some(t) => t,
                None => empty_node(),
            });
            assert forall|c: [u8; 32]| c != contract_id implies #[trigger] lookup_first(mid, c) == lookup_first(
                before,
                c,
            ) by {
                match pos {
                    Some(i) => {
                        crate::kv::lemma_lookup_first_update(before, contract_id, empty_node(), i as int, c);
                    },
                    None => {},
                }
            }
        }
        upsert32(&mut self.intermediate_trees, contract_id, tree);
        proof {
            assert forall|c: [u8; 32]| #[trigger] lookup_first(self.intermediate_trees@, c) == if c == contract_id {
                Some(
                    insert_along(
                        match lookup_first(before, c) {
                            Some(t) => t,
                            None => empty_node(),
                        },
                        h,
                        0,
                        MerkleNode { hash: Some(h), data: None, left: None, right: None },
                    ),
                )
            } else {
                lookup_first(before, c)
            } by {
                if c != contract_id {
                    assert(lookup_first(mid, c) == lookup_first(before, c));
                }
            }
        }
        upsert32(&mut self.state_hashes, h, StateType::Intermediate);
        self.metrics.total_states = self.metrics.total_states + 1;
        self.metrics.intermediate_states = self.metrics.intermediate_states + 1;
        self.metrics.state_updates = self.metrics.state_updates + 1;
        Ok(h)
    }

    /// Records the root state from its serialized bytes and returns its hash:
    /// the root tree takes the hash and the bytes.
    pub fn update_root_state(&mut self, serialized_state: &Vec<u8>) -> (r: Result<[u8; 32], SystemError>)
        requires
            old(self).metrics().total_states < usize::MAX,
            old(self).metrics().state_updates < u64::MAX,
        ensures
            r matches Ok(h) && h@ == crate::hashing::spec_sha256(serialized_state@) && {
                &&& forall|x: [u8; 32]| #[trigger] final(self).level(x) == if x == h {
                    Some(StateType::Root)
                } else {
                    old(self).level(x)
                }
                &&& final(self).root().hash == Some(h)
            },
            final(self).root().data matches Some(d) && d@ == serialized_state@,
            final(self).root().left == old(self).root().left,
            final(self).root().right == old(self).root().right,
            final(self).wallet_entries() == old(self).wallet_entries(),
            final(self).trees() == old(self).trees(),
            final(self).metrics() == (StateMetrics {
                total_states: (old(self).metrics().total_states + 1) as usize,
                state_updates: (old(self).metrics().state_updates + 1) as u64,
                ..old(self).metrics()
            }),
    {
        let h = crate::hashing::sha256_digest(serialized_state.as_slice());
        upsert32(&mut self.state_hashes, h, StateType::Root);
        self.root_tree.hash = Some(h);
        self.root_tree.data = Some(crate::btc::copy_bytes(serialized_state));
        self.metrics.total_states = self.metrics.total_states + 1;
        self.metrics.state_updates = self.metrics.state_updates + 1;
        Ok(h)
    }

    /// The serialized current state: the root's bytes, when the root has a
    /// hash and bytes; refused otherwise.
    pub fn get_current_state(&self) -> (r: Result<Vec<u8>, SystemError>)
        ensures
            (self.root().hash is Some && self.root().data is Some) ==> (r matches Ok(d) && d@ == self.root().data->0@),
            !(self.root().hash is Some && self.root().data is Some) ==> (r matches Err(e) && e.error_type
                == SystemErrorType::InvalidState),
    {
        if self.root_tree.hash.is_some() {
            if let Some(data) = &self.root_tree.data {
                return Ok(crate::btc::copy_bytes(data));
            }
        }
        Err(SystemError::new(SystemErrorType::InvalidState, "No current state"))
    }

    /// Whether a state hash is recorded.
    pub fn verify_state(&self, state_hash: [u8; 32]) -> (r: bool)
        ensures
            r == self.level(state_hash) is Some,
    {
        position32(&self.state_hashes, &state_hash).is_some()
    }

    /// The level recorded for a state hash.
    pub fn get_state_type(&self, state_hash: [u8; 32]) -> (r: Option<StateType>)
        ensures
            r == self.level(state_hash),
    {
        match position32(&self.state_hashes, &state_hash) {
            Some(i) => Some(self.state_hashes[i].1),
            None => None,
        }
    }

    /// The counts.
    pub fn get_metrics(&self) -> (r: StateMetrics)
        ensures
            r == self.metrics(),
    {
        self.metrics
    }
}

/// Whether a list of hashes holds `h`.
pub fn contains32(v: &Vec<[u8; 32]>, h: &[u8; 32]) -> (r: bool)
    ensures
        r == v@.contains(*h),
{
    let n = v.len();
    for i in 0..n
        invariant
            n == v@.len(),
            forall|j: int| 0 <= j < i ==> v@[j] != *h,
    {
        if crate::btc::bytes32_eq(&v[i], h) {
            return true;
        }
    }
    false
}

/// A copy of a list of hashes.
pub fn copy_hashes(v: &Vec<[u8; 32]>) -> (r: Vec<[u8; 32]>)
    ensures
        r@ == v@,
{
    let mut out: Vec<[u8; 32]> = Vec::new();
    let n = v.len();
    for i in 0..n
        invariant
            n == v@.len(),
            out@ == v@.take(i as int),
    {
        out.push(v[i]);
        assert(v@.take(i + 1) == v@.take(i as int).push(v@[i as int]));
    }
    assert(v@.take(n as int) == v@);
    out
}

/// A proof found in a prefix of the trees is the proof of the whole list.
pub proof fn lemma_first_tree_path_extend(s: Seq<([u8; 32], MerkleNode)>, t: [u8; 32], i: int)
    requires
        0 <= i <= s.len(),
        first_tree_path(s.take(i), t) is Some,
    ensures
        first_tree_path(s, t) == first_tree_path(s.take(i), t),
    decreases s.len() - i,
{
    if i < s.len() {
        assert(s.take(i + 1).drop_last() == s.take(i));
        lemma_first_tree_path_extend(s, t, i + 1);
    } else {
        assert(s.take(i) == s);
    }
}

/// A proof found in a prefix of the wallet entries is the proof of the whole
/// list.
pub proof fn lemma_first_wallet_proof_extend(s: Seq<([u8; 32], Vec<[u8; 32]>)>, h: [u8; 32], i: int)
    requires
        0 <= i <= s.len(),
        first_wallet_proof(s.take(i), h) is Some,
    ensures
        first_wallet_proof(s, h) == first_wallet_proof(s.take(i), h),
    decreases s.len() - i,
{
    if i < s.len() {
        assert(s.take(i + 1).drop_last() == s.take(i));
        lemma_first_wallet_proof_extend(s, h, i + 1);
    } else {
        assert(s.take(i) == s);
    }
}

/// The number of levels of a tree: one for a lone node.
pub open spec fn height(node: MerkleNode) -> nat
    decreases node,
{
    let l = match node.left {
        Some(c) => height(*c),
        None => 0,
    };
    let r = match node.right {
        Some(c) => height(*c),
        None => 0,
    };
    1 + if l >= r { l } else { r }
}

/// Placing a node with hash `t` in a tree of fewer than `256 - i` levels,
/// from depth `i`, leaves a tree in which `t` is found.
pub proof fn lemma_inserted_node_found(node: MerkleNode, path: [u8; 32], i: int, new_node: MerkleNode, t: [u8; 32])
    requires
        0 <= i < 256,
        height(node) + i < 256,
        new_node.hash == Some(t),
    ensures
        proof_path(insert_along(node, path, i, new_node), t) is Some,
    decreases node,
{
    let after = insert_along(node, path, i, new_node);
    assert(proof_path(new_node, t) == Some(seq![t]));
    if node.hash == Some(t) {
    } else if !path_bit(path, i) {
        match node.left {
            None => {},
            Some(l) => {
                lemma_inserted_node_found(*l, path, i + 1, new_node, t);
            },
        }
    } else {
        match node.right {
            None => {},
            Some(r) => {
                lemma_inserted_node_found(*r, path, i + 1, new_node, t);
            },
        }
    }
}

/// A hash found in some tree of the list is found by the search over the
/// list.
pub proof fn lemma_found_in_some_tree(s: Seq<([u8; 32], MerkleNode)>, c: [u8; 32], t: [u8; 32])
    requires
        lookup_first(s, c) matches Some(tree) && proof_path(tree, t) is Some,
    ensures
        first_tree_path(s, t) is Some,
    decreases s.len(),
{
    if s.len() > 0 {
        if lookup_first(s.drop_last(), c) is Some {
            lemma_found_in_some_tree(s.drop_last(), c, t);
        }
    }
}

/// What the state manager records it can prove: once a state is recorded at
/// the root level, its proof is its hash; once it is recorded at the
/// intermediate level by placing its leaf in a contract's tree (lower than
/// 256 levels before), a proof for it is found.
pub proof fn lemma_recorded_state_provable(m: StateManager, h: [u8; 32], c: [u8; 32], before_tree: MerkleNode)
    ensures
        m.level(h) == Some(StateType::Root) ==> m.proof_for(h) == Some(seq![h]),
        (m.level(h) == Some(StateType::Intermediate) && height(before_tree) < 256 && m.tree_of(c) == Some(
            insert_along(before_tree, h, 0, MerkleNode { hash: Some(h), data: None, left: None, right: None }),
        )) ==> m.proof_for(h) is Some,
{
    if m.level(h) == Some(StateType::Intermediate) && height(before_tree) < 256 && m.tree_of(c) == Some(
        insert_along(before_tree, h, 0, MerkleNode { hash: Some(h), data: None, left: None, right: None }),
    ) {
        lemma_inserted_node_found(before_tree, h, 0, MerkleNode { hash: Some(h), data: None, left: None, right: None }, h);
        lemma_found_in_some_tree(m.trees(), c, h);
    }
}

/// The 32-byte array with these bytes (when there are 32 of them).
pub open spec fn array32_of(bytes: Seq<u8>) -> [u8; 32] {
    choose|h: [u8; 32]| h@ == bytes
}

/// An array with these bytes is `array32_of` them.
pub proof fn lemma_array32_of(bytes: Seq<u8>, h: [u8; 32])
    requires
        h@ == bytes,
    ensures
        array32_of(bytes) == h,
{
    let c = array32_of(bytes);
    assert(c@ == bytes);
    assert forall|i: int| 0 <= i < 32 implies c[i] == h[i] by {
        assert(c@[i] == h@[i]);
    }
    assert(c =~= h);
}

/// The 32-byte array holding the SHA-256 digest of `data`.
pub open spec fn hash_of(data: Seq<u8>) -> [u8; 32] {
    array32_of(crate::hashing::spec_sha256(data))
}

/// An array whose bytes are the digest of `data` is `hash_of(data)`.
pub proof fn lemma_hash_of(data: Seq<u8>, h: [u8; 32])
    requires
        h@ == crate::hashing::spec_sha256(data),
    ensures
        hash_of(data) == h,
{
    lemma_array32_of(crate::hashing::spec_sha256(data), h);
}

} // verus!
