use vstd::prelude::*;

use crate::node_types::{ChannelState, ContractState};

verus! {

/// A saved client state: its version, its root, and its channels and
/// contracts by id.
#[derive(Clone, Debug)]
pub struct StoredState {
    pub version: u64,
    pub root: [u8; 32],
    pub channels: Vec<([u8; 32], ChannelState)>,
    pub contracts: Vec<([u8; 32], ContractState)>,
}

/// Position `k` holds the latest state: no version is higher, and every
/// later position has a lower one.
pub open spec fn is_latest(states: Seq<StoredState>, k: int) -> bool {
    &&& 0 <= k < states.len()
    &&& forall|j: int| 0 <= j < states.len() ==> #[trigger] states[j].version <= states[k].version
    &&& forall|j: int| k < j < states.len() ==> #[trigger] states[j].version < states[k].version
}

/// The latest of the saved states: the one with the highest version, the
/// last of them on a tie; `None` when there are none.
pub fn load_latest_state(states: Vec<StoredState>) -> (r: Option<StoredState>)
    ensures
        states@.len() == 0 ==> r is None,
        states@.len() > 0 ==> exists|k: int| is_latest(states@, k) && r == Some(states@[k]),
{
    let n = states.len();
    if n == 0 {
        return None;
    }
    let mut best: usize = 0;
    let mut i: usize = 1;
    while i < n
        invariant
            n == states@.len(),
            1 <= i <= n,
            best < i,
            forall|j: int| 0 <= j < i ==> #[trigger] states@[j].version <= states@[best as int].version,
            forall|j: int| best < j < i ==> #[trigger] states@[j].version < states@[best as int].version,
        decreases n - i,
    {
        if states[i].version >= states[best].version {
            best = i;
        }
        i = i + 1;
    }
    let mut states = states;
    let ghost all = states@;
    let latest = states.remove(best);
    assert(is_latest(all, best as int));
    Some(latest)
}

} // verus!
