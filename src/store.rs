use vstd::prelude::*;

use crate::felt::Felt;
use crate::model::{Block, L2StateUpdate, StateUpdate};

verus! {

/// The latest observations of the chain that the rest of the node reads: the
/// verified tip, the highest block known to exist (the parent of the pending
/// block), and the pending block and its state update. Each slot is replaced
/// as a whole; slots are independent of each other.
#[derive(Debug)]
pub struct ObservationStore {
    pub verified_tip: L2StateUpdate,
    pub highest_known: (Felt, u64),
    pub pending_block: Option<Block>,
    pub pending_state_update: Option<StateUpdate>,
}

/// The tip that a store holds before anything was verified.
pub open spec fn genesis_tip() -> L2StateUpdate {
    L2StateUpdate {
        block_number: 0,
        global_root: Felt { hi: 0, lo: 0 },
        block_hash: Felt { hi: 0, lo: 0 },
    }
}

impl ObservationStore {
    /// A store with nothing observed yet: zero tip and highest block, no
    /// pending data.
    pub fn new() -> (r: ObservationStore)
        ensures
            r.verified_tip == genesis_tip(),
            r.highest_known == (Felt { hi: 0, lo: 0 }, 0u64),
            r.pending_block is None,
            r.pending_state_update is None,
    {
        ObservationStore {
            verified_tip: L2StateUpdate {
                block_number: 0,
                global_root: Felt::zero(),
                block_hash: Felt::zero(),
            },
            highest_known: (Felt::zero(), 0),
            pending_block: None,
            pending_state_update: None,
        }
    }

    /// The store with `tip` as its verified tip and the other slots kept.
    pub open spec fn with_tip(self, tip: L2StateUpdate) -> ObservationStore {
        ObservationStore { verified_tip: tip, ..self }
    }
}

/// Publishes a newly verified L2 state as the verified tip.
pub fn update_l2(store: &mut ObservationStore, state_update: L2StateUpdate)
    ensures
        *final(store) == old(store).with_tip(state_update),
{
    store.verified_tip = state_update;
}

/// The latest verified L2 state.
pub fn get_verified_tip(store: &ObservationStore) -> (r: L2StateUpdate)
    ensures
        r == store.verified_tip,
{
    store.verified_tip
}

/// The hash and number of the highest block known to exist.
pub fn get_highest_block_hash_and_number(store: &ObservationStore) -> (r: (Felt, u64))
    ensures
        r == store.highest_known,
{
    store.highest_known
}

/// The pending block last seen while the node was caught up.
pub fn get_pending_block(store: &ObservationStore) -> (r: &Option<Block>)
    ensures
        *r == store.pending_block,
{
    &store.pending_block
}

/// The pending state update last seen while the node was caught up.
pub fn get_pending_state_update(store: &ObservationStore) -> (r: &Option<StateUpdate>)
    ensures
        *r == store.pending_state_update,
{
    &store.pending_state_update
}

} // verus!
