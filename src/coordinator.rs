use vstd::prelude::*;

use crate::felt::Felt;

verus! {

/// Seconds to wait after a failed fetch before trying the height again.
pub const RETRY_DELAY_SECS: u64 = 10;

/// Milliseconds that must pass between two refreshes of the pending block.
pub const TIP_REFRESH_MS: u64 = 1000;

/// Where the sync of the current height stands.
#[derive(Clone, Copy, Debug, PartialEq, Eq, Structural)]
pub enum Phase {
    /// Neither the block nor the state update was obtained yet.
    NeedBoth,
    /// The state update was obtained; the block is still missing.
    NeedBlock,
    /// The block was obtained; the state update is still missing.
    NeedStateUpdate,
    /// Both were obtained; the consensus engine is to seal a block.
    ReadyToSeal,
    /// Sealing failed; the sync has stopped for good.
    Halted,
}

/// The sync loop's state: the height being fetched, what is still missing
/// for it, and the hash of the last block that the consensus engine sealed.
#[derive(Clone, Copy, Debug, PartialEq, Eq, Structural)]
pub struct SyncState {
    pub height: u64,
    pub phase: Phase,
    pub last_block_hash: Option<Felt>,
}

/// What the sync loop is to do next.
#[derive(Clone, Copy, Debug, PartialEq, Eq, Structural)]
pub enum Action {
    /// Fetch the block and/or the state update chain of `height`; both at
    /// once when both are asked for.
    Fetch { height: u64, block: bool, state_update: bool },
    /// Ask the consensus engine to seal a new block.
    Seal,
    /// Stop the loop.
    Stop,
}

/// The command that asks the consensus engine for a new block.
#[derive(Clone, Copy, Debug, PartialEq, Eq, Structural)]
pub struct SealRequest {
    pub create_empty: bool,
    pub finalize: bool,
    pub parent_hash: Option<Felt>,
}

/// What follows a round of fetches.
#[derive(Clone, Copy, Debug, PartialEq, Eq, Structural)]
pub enum FetchOutcome {
    /// Everything for the height is in: seal.
    Seal,
    /// The block failed while the state update is in: wait, then fetch the
    /// block alone.
    RetryBlock,
    /// The state update chain failed: wait, then try it again.
    RetryStateUpdate,
}

pub open spec fn action_of(s: SyncState) -> Action {
    match s.phase {
        Phase::NeedBoth => Action::Fetch { height: s.height, block: true, state_update: true },
        Phase::NeedBlock => Action::Fetch { height: s.height, block: true, state_update: false },
        Phase::NeedStateUpdate => Action::Fetch { height: s.height, block: false, state_update: true },
        Phase::ReadyToSeal => Action::Seal,
        Phase::Halted => Action::Stop,
    }
}

/// Whether the phase is one in which something is still to be fetched.
pub open spec fn is_fetching(p: Phase) -> bool {
    p is NeedBoth || p is NeedBlock || p is NeedStateUpdate
}

/// Whether the block is in after a round: it was in before, or was fetched
/// now.
pub open spec fn has_block_after(p: Phase, block_ok: bool) -> bool {
    p is NeedStateUpdate || block_ok
}

/// Whether the state update is in after a round.
pub open spec fn has_state_update_after(p: Phase, state_update_ok: bool) -> bool {
    p is NeedBlock || state_update_ok
}

pub open spec fn phase_after_fetch(p: Phase, block_ok: bool, state_update_ok: bool) -> Phase {
    let b = has_block_after(p, block_ok);
    let u = has_state_update_after(p, state_update_ok);
    if b && u {
        Phase::ReadyToSeal
    } else if b {
        Phase::NeedStateUpdate
    } else if u {
        Phase::NeedBlock
    } else {
        Phase::NeedBoth
    }
}

pub open spec fn outcome_of_fetch(p: Phase, block_ok: bool, state_update_ok: bool) -> FetchOutcome {
    if !has_state_update_after(p, state_update_ok) {
        FetchOutcome::RetryStateUpdate
    } else if !has_block_after(p, block_ok) {
        FetchOutcome::RetryBlock
    } else {
        FetchOutcome::Seal
    }
}

pub open spec fn state_after_fetch(s: SyncState, block_ok: bool, state_update_ok: bool) -> SyncState {
    SyncState { phase: phase_after_fetch(s.phase, block_ok, state_update_ok), ..s }
}

pub open spec fn state_after_seal(s: SyncState, sealed: Option<Felt>) -> SyncState {
    match sealed {
        Some(h) => SyncState {
            height: (s.height + 1) as u64,
            phase: Phase::NeedBoth,
            last_block_hash: Some(h),
        },
        None => SyncState { phase: Phase::Halted, ..s },
    }
}

/// Whether the state tries must be seeded with the genesis state update
/// before the loop starts: only when the sync starts at block 1.
pub fn needs_genesis_seed(first_block: u64) -> (r: bool)
    ensures
        r == (first_block == 1),
{
    first_block == 1
}

/// Whether the pending block is due for a refresh, given the milliseconds
/// since the last one.
pub fn tip_refresh_due(elapsed_ms: u64) -> (r: bool)
    ensures
        r == (elapsed_ms > TIP_REFRESH_MS),
{
    elapsed_ms > TIP_REFRESH_MS
}

/// The seal command sent once a height is complete: an empty block, finalized
/// at once, on top of the engine's own best block.
pub fn seal_request() -> (r: SealRequest)
    ensures
        r == (SealRequest { create_empty: true, finalize: true, parent_hash: None }),
{
    SealRequest { create_empty: true, finalize: true, parent_hash: None }
}

impl SyncState {
    /// The state at the start of the sync from `first_block`.
    pub fn new(first_block: u64) -> (r: SyncState)
        ensures
            r == (SyncState { height: first_block, phase: Phase::NeedBoth, last_block_hash: None }),
    {
        SyncState { height: first_block, phase: Phase::NeedBoth, last_block_hash: None }
    }

    /// What to do next: fetch what the current height still lacks, seal, or
    /// stop.
    pub fn next_action(&self) -> (r: Action)
        ensures
            r == action_of(*self),
    {
        match self.phase {
            Phase::NeedBoth => Action::Fetch { height: self.height, block: true, state_update: true },
            Phase::NeedBlock => Action::Fetch { height: self.height, block: true, state_update: false },
            Phase::NeedStateUpdate => Action::Fetch {
                height: self.height,
                block: false,
                state_update: true,
            },
            Phase::ReadyToSeal => Action::Seal,
            Phase::Halted => Action::Stop,
        }
    }

    /// Records the results of the fetches that `next_action` asked for
    /// (`block_ok` is read only if the block was asked for, likewise
    /// `state_update_ok`). What was obtained is kept across a retry.
    pub fn record_fetch(&mut self, block_ok: bool, state_update_ok: bool) -> (r: FetchOutcome)
        requires
            is_fetching(old(self).phase),
        ensures
            *final(self) == state_after_fetch(*old(self), block_ok, state_update_ok),
            r == outcome_of_fetch(old(self).phase, block_ok, state_update_ok),
            r is Seal <==> final(self).phase is ReadyToSeal,
    {
        let has_block = match self.phase {
            Phase::NeedStateUpdate => true,
            _ => block_ok,
        };
        let has_state_update = match self.phase {
            Phase::NeedBlock => true,
            _ => state_update_ok,
        };
        self.phase = if has_block && has_state_update {
            Phase::ReadyToSeal
        } else if has_block {
            Phase::NeedStateUpdate
        } else if has_state_update {
            Phase::NeedBlock
        } else {
            Phase::NeedBoth
        };
        if !has_state_update {
            FetchOutcome::RetryStateUpdate
        } else if !has_block {
            FetchOutcome::RetryBlock
        } else {
            FetchOutcome::Seal
        }
    }

    /// Records the reply of the consensus engine: the hash of the sealed
    /// block, or `None` when sealing failed, which stops the sync.
    pub fn record_seal(&mut self, sealed: Option<Felt>)
        requires
            old(self).phase is ReadyToSeal,
            old(self).height < u64::MAX,
        ensures
            *final(self) == state_after_seal(*old(self), sealed),
    {
        match sealed {
            Some(h) => {
                self.height = self.height + 1;
                self.phase = Phase::NeedBoth;
                self.last_block_hash = Some(h);
            },
            None => {
                self.phase = Phase::Halted;
            },
        }
    }
}

/// Heights advance one at a time: a round of fetches keeps the height, a
/// successful seal at height `n` makes the next action the fetch of both the
/// block and the state update of `n + 1`, and a failed seal stops the loop
/// with no further fetch.
pub proof fn lemma_heights_advance_by_one(
    s: SyncState,
    block_ok: bool,
    state_update_ok: bool,
    sealed: Felt,
)
    requires
        s.height < u64::MAX,
    ensures
        state_after_fetch(s, block_ok, state_update_ok).height == s.height,
        action_of(state_after_seal(s, Some(sealed))) == (Action::Fetch {
            height: (s.height + 1) as u64,
            block: true,
            state_update: true,
        }),
        action_of(state_after_seal(s, None)) == Action::Stop,
{
}

/// A failed block fetch beside a successful state update chain costs exactly
/// one more block fetch and no second state update fetch: the next action
/// fetches the block alone, and once it arrives the height is ready to seal,
/// whatever is passed for the state update that was not fetched.
pub proof fn lemma_partial_success_kept(s: SyncState, ignored: bool)
    requires
        s.phase is NeedBoth,
    ensures
        outcome_of_fetch(s.phase, false, true) is RetryBlock,
        action_of(state_after_fetch(s, false, true)) == (Action::Fetch {
            height: s.height,
            block: true,
            state_update: false,
        }),
        action_of(state_after_fetch(state_after_fetch(s, false, true), true, ignored))
            == Action::Seal,
{
}

} // verus!
