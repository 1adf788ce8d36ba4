use vstd::prelude::*;

use crate::felt::Felt;
use crate::model::{Block, StateUpdate};
use crate::store::ObservationStore;

verus! {

/// Why a refresh of the pending observations was dropped.
#[derive(Clone, Copy, Debug, PartialEq, Eq, Structural)]
pub enum TipError {
    /// The pending block carries no block number.
    MissingBlockNumber,
    /// The pending block claims number 0, so it has no parent.
    NoParent,
    /// The node is caught up, yet no pending state update was supplied.
    MissingPendingStateUpdate,
}

/// Whether the node holds the parent of the pending block as its best block,
/// so that pending data can be published.
pub fn is_caught_up(local_best_hash: Felt, pending: &Block) -> (r: bool)
    ensures
        r == (local_best_hash == pending.parent_block_hash),
{
    local_best_hash == pending.parent_block_hash
}

/// The store after a refresh from the pending block, or why the refresh was
/// dropped.
pub open spec fn refresh_of(
    store: ObservationStore,
    local_best_hash: Felt,
    pending: Block,
    pending_state_update: Option<StateUpdate>,
) -> Result<ObservationStore, TipError> {
    match pending.block_number {
        None => Err(TipError::MissingBlockNumber),
        Some(n) => if n == 0 {
            Err(TipError::NoParent)
        } else {
            let highest = (pending.parent_block_hash, (n - 1) as u64);
            if local_best_hash == pending.parent_block_hash {
                match pending_state_update {
                    None => Err(TipError::MissingPendingStateUpdate),
                    Some(su) => Ok(
                        ObservationStore {
                            highest_known: highest,
                            pending_block: Some(pending),
                            pending_state_update: Some(su),
                            ..store
                        },
                    ),
                }
            } else {
                Ok(ObservationStore { highest_known: highest, ..store })
            }
        },
    }
}

/// Refreshes the pending observations from the gateway's pending block. The
/// highest known block becomes the pending block's parent. Only when the node
/// is caught up (its best block is that parent) are the pending block and
/// `pending_state_update` published too. On an error nothing changes.
pub fn update_starknet_data(
    store: &mut ObservationStore,
    local_best_hash: Felt,
    pending: Block,
    pending_state_update: Option<StateUpdate>,
) -> (r: Result<(), TipError>)
    ensures
        match refresh_of(*old(store), local_best_hash, pending, pending_state_update) {
            Ok(s) => r is Ok && *final(store) == s,
            Err(e) => r == Err::<(), TipError>(e) && *final(store) == *old(store),
        },
{
    let number = match pending.block_number {
        None => return Err(TipError::MissingBlockNumber),
        Some(n) => n,
    };
    if number == 0 {
        return Err(TipError::NoParent);
    }
    let parent = pending.parent_block_hash;
    if is_caught_up(local_best_hash, &pending) {
        match pending_state_update {
            None => return Err(TipError::MissingPendingStateUpdate),
            Some(su) => {
                store.pending_block = Some(pending);
                store.pending_state_update = Some(su);
            },
        }
    }
    store.highest_known = (parent, number - 1);
    Ok(())
}

} // verus!
