use vstd::prelude::*;

use crate::felt::Felt;
use crate::model::{
    DeclaredClass, DeployedContract, L2StateUpdate, NonceUpdate, ReplacedClass, StateDiff,
    StateUpdate, StorageWrite,
};
use crate::store::{update_l2, ObservationStore};

verus! {

/// One change that a state diff makes to the two commitment tries.
#[derive(Clone, Copy, Debug, PartialEq, Eq, Structural)]
pub enum TrieOp {
    /// Class trie: the leaf of `class_hash` commits to `compiled_class_hash`.
    ClassLeaf { class_hash: Felt, compiled_class_hash: Felt },
    /// Contract trie: the contract at `address` now has class `class_hash`.
    ContractClass { address: Felt, class_hash: Felt },
    /// Contract trie: a write to the storage of the contract at `address`.
    Storage { address: Felt, key: Felt, value: Felt },
    /// Contract trie: the contract at `address` now has nonce `nonce`.
    Nonce { address: Felt, nonce: Felt },
}

pub open spec fn declared_op(c: DeclaredClass) -> TrieOp {
    TrieOp::ClassLeaf { class_hash: c.class_hash, compiled_class_hash: c.compiled_class_hash }
}

pub open spec fn deployed_op(c: DeployedContract) -> TrieOp {
    TrieOp::ContractClass { address: c.address, class_hash: c.class_hash }
}

pub open spec fn storage_op(w: StorageWrite) -> TrieOp {
    TrieOp::Storage { address: w.address, key: w.key, value: w.value }
}

pub open spec fn nonce_op(n: NonceUpdate) -> TrieOp {
    TrieOp::Nonce { address: n.address, nonce: n.nonce }
}

pub open spec fn replaced_op(r: ReplacedClass) -> TrieOp {
    TrieOp::ContractClass { address: r.address, class_hash: r.class_hash }
}

/// The changes of a diff in the order they are applied: declared classes,
/// deployed contracts, storage writes, nonces, class replacements, each list
/// in its own order.
pub open spec fn commitment_ops_of(d: StateDiff) -> Seq<TrieOp> {
    d.declared_classes@.map_values(|c: DeclaredClass| declared_op(c))
        + d.deployed_contracts@.map_values(|c: DeployedContract| deployed_op(c))
        + d.storage_writes@.map_values(|w: StorageWrite| storage_op(w))
        + d.nonces@.map_values(|n: NonceUpdate| nonce_op(n))
        + d.replaced_classes@.map_values(|r: ReplacedClass| replaced_op(r))
}

/// The changes that a state diff makes to the commitment tries, in the order
/// in which the trie backend applies them.
pub fn build_commitment_ops(diff: &StateDiff) -> (r: Vec<TrieOp>)
    ensures
        r@ == commitment_ops_of(*diff),
{
    let mut ops: Vec<TrieOp> = Vec::new();
    let mut i: usize = 0;
    while i < diff.declared_classes.len()
        invariant
            i <= diff.declared_classes@.len(),
            ops@ == diff.declared_classes@.take(i as int).map_values(
                |c: DeclaredClass| declared_op(c),
            ),
        decreases diff.declared_classes@.len() - i,
    {
        let c = diff.declared_classes[i];
        ops.push(TrieOp::ClassLeaf { class_hash: c.class_hash, compiled_class_hash: c.compiled_class_hash });
        i = i + 1;
        assert(ops@ =~= diff.declared_classes@.take(i as int).map_values(
            |c: DeclaredClass| declared_op(c),
        ));
    }
    assert(diff.declared_classes@.take(i as int) =~= diff.declared_classes@);
    let ghost s1 = ops@;
    i = 0;
    while i < diff.deployed_contracts.len()
        invariant
            i <= diff.deployed_contracts@.len(),
            ops@ == s1 + diff.deployed_contracts@.take(i as int).map_values(
                |c: DeployedContract| deployed_op(c),
            ),
        decreases diff.deployed_contracts@.len() - i,
    {
        let c = diff.deployed_contracts[i];
        ops.push(TrieOp::ContractClass { address: c.address, class_hash: c.class_hash });
        i = i + 1;
        assert(ops@ =~= s1 + diff.deployed_contracts@.take(i as int).map_values(
            |c: DeployedContract| deployed_op(c),
        ));
    }
    assert(diff.deployed_contracts@.take(i as int) =~= diff.deployed_contracts@);
    let ghost s2 = ops@;
    i = 0;
    while i < diff.storage_writes.len()
        invariant
            i <= diff.storage_writes@.len(),
            ops@ == s2 + diff.storage_writes@.take(i as int).map_values(
                |w: StorageWrite| storage_op(w),
            ),
        decreases diff.storage_writes@.len() - i,
    {
        let w = diff.storage_writes[i];
        ops.push(TrieOp::Storage { address: w.address, key: w.key, value: w.value });
        i = i + 1;
        assert(ops@ =~= s2 + diff.storage_writes@.take(i as int).map_values(
            |w: StorageWrite| storage_op(w),
        ));
    }
    assert(diff.storage_writes@.take(i as int) =~= diff.storage_writes@);
    let ghost s3 = ops@;
    i = 0;
    while i < diff.nonces.len()
        invariant
            i <= diff.nonces@.len(),
            ops@ == s3 + diff.nonces@.take(i as int).map_values(|n: NonceUpdate| nonce_op(n)),
        decreases diff.nonces@.len() - i,
    {
        let n = diff.nonces[i];
        ops.push(TrieOp::Nonce { address: n.address, nonce: n.nonce });
        i = i + 1;
        assert(ops@ =~= s3 + diff.nonces@.take(i as int).map_values(|n: NonceUpdate| nonce_op(n)));
    }
    assert(diff.nonces@.take(i as int) =~= diff.nonces@);
    let ghost s4 = ops@;
    i = 0;
    while i < diff.replaced_classes.len()
        invariant
            i <= diff.replaced_classes@.len(),
            ops@ == s4 + diff.replaced_classes@.take(i as int).map_values(
                |r: ReplacedClass| replaced_op(r),
            ),
        decreases diff.replaced_classes@.len() - i,
    {
        let r = diff.replaced_classes[i];
        ops.push(TrieOp::ContractClass { address: r.address, class_hash: r.class_hash });
        i = i + 1;
        assert(ops@ =~= s4 + diff.replaced_classes@.take(i as int).map_values(
            |r: ReplacedClass| replaced_op(r),
        ));
    }
    assert(diff.replaced_classes@.take(i as int) =~= diff.replaced_classes@);
    ops
}

/// Why a state update could not be verified.
#[derive(Clone, Copy, Debug, PartialEq, Eq, Structural)]
pub enum VerifyError {
    /// The state update names no block hash.
    MissingBlockHash,
    /// The root recomputed from the tries differs from the one announced.
    RootMismatch { computed: Felt, announced: Felt },
}

/// The outcome of verifying `su` at height `n` against the root recomputed
/// by the tries.
pub open spec fn verification_of(n: u64, su: StateUpdate, computed_root: Felt) -> Result<
    L2StateUpdate,
    VerifyError,
> {
    match su.block_hash {
        None => Err(VerifyError::MissingBlockHash),
        Some(h) => if computed_root == su.new_root {
            Ok(L2StateUpdate { block_number: n, global_root: computed_root, block_hash: h })
        } else {
            Err(VerifyError::RootMismatch { computed: computed_root, announced: su.new_root })
        },
    }
}

/// The store after such a verification: the new tip on success, unchanged
/// otherwise.
pub open spec fn store_after(
    store: ObservationStore,
    n: u64,
    su: StateUpdate,
    computed_root: Felt,
) -> ObservationStore {
    match verification_of(n, su, computed_root) {
        Ok(tip) => store.with_tip(tip),
        Err(_) => store,
    }
}

/// Checks the state update of block `block_number` against the root that the
/// tries gave after its changes were applied, and on success publishes the
/// block as the verified tip.
pub fn verify_l2(
    store: &mut ObservationStore,
    block_number: u64,
    state_update: &StateUpdate,
    computed_root: Felt,
) -> (r: Result<L2StateUpdate, VerifyError>)
    ensures
        r == verification_of(block_number, *state_update, computed_root),
        *final(store) == store_after(*old(store), block_number, *state_update, computed_root),
{
    let block_hash = match state_update.block_hash {
        None => return Err(VerifyError::MissingBlockHash),
        Some(h) => h,
    };
    if computed_root != state_update.new_root {
        return Err(
            VerifyError::RootMismatch { computed: computed_root, announced: state_update.new_root },
        );
    }
    let tip = L2StateUpdate { block_number, global_root: computed_root, block_hash };
    update_l2(store, tip);
    Ok(tip)
}

/// A run of verifications, in order: each is a height, its state update and
/// the root the tries gave for it.
pub open spec fn replay(store: ObservationStore, runs: Seq<(u64, StateUpdate, Felt)>) -> ObservationStore
    decreases runs.len(),
{
    if runs.len() == 0 {
        store
    } else {
        let (n, su, root) = runs.last();
        store_after(replay(store, runs.drop_last()), n, su, root)
    }
}

pub open spec fn succeeds(run: (u64, StateUpdate, Felt)) -> bool {
    verification_of(run.0, run.1, run.2) is Ok
}

/// After any run of verifications the verified tip is the block of the last
/// one that succeeded, with that block's height and hash and its announced
/// root as global root; when none succeeded it is the tip from before. The
/// other slots are never touched.
pub proof fn lemma_verified_tip_is_last_success(
    store: ObservationStore,
    runs: Seq<(u64, StateUpdate, Felt)>,
)
    ensures
        replay(store, runs) == store.with_tip(replay(store, runs).verified_tip),
        (forall|i: int| 0 <= i < runs.len() ==> !succeeds(#[trigger] runs[i])) ==> replay(
            store,
            runs,
        ).verified_tip == store.verified_tip,
        (exists|i: int| 0 <= i < runs.len() && succeeds(#[trigger] runs[i])) ==> exists|i: int|
            {
                &&& 0 <= i < runs.len()
                &&& succeeds(#[trigger] runs[i])
                &&& forall|j: int| i < j < runs.len() ==> !succeeds(#[trigger] runs[j])
                &&& replay(store, runs).verified_tip.block_number == runs[i].0
                &&& replay(store, runs).verified_tip.global_root == runs[i].1.new_root
                &&& runs[i].1.block_hash == Some(replay(store, runs).verified_tip.block_hash)
            },
    decreases runs.len(),
{
    if runs.len() > 0 {
        let prev = runs.drop_last();
        lemma_verified_tip_is_last_success(store, prev);
        let last = runs.last();
        let k = runs.len() - 1;
        assert(runs[k] == last);
        assert forall|i: int| 0 <= i < prev.len() implies prev[i] == runs[i] by {}
        if succeeds(last) {
            assert(succeeds(runs[k]));
        } else {
            if exists|i: int| 0 <= i < runs.len() && succeeds(#[trigger] runs[i]) {
                let i0 = choose|i: int| 0 <= i < runs.len() && succeeds(#[trigger] runs[i]);
                assert(succeeds(prev[i0]));
                let i = choose|i: int|
                    {
                        &&& 0 <= i < prev.len()
                        &&& succeeds(#[trigger] prev[i])
                        &&& forall|j: int| i < j < prev.len() ==> !succeeds(#[trigger] prev[j])
                        &&& replay(store, prev).verified_tip.block_number == prev[i].0
                        &&& replay(store, prev).verified_tip.global_root == prev[i].1.new_root
                        &&& prev[i].1.block_hash == Some(replay(store, prev).verified_tip.block_hash)
                    };
                assert forall|j: int| i < j < runs.len() implies !succeeds(#[trigger] runs[j]) by {
                    if j < prev.len() {
                        assert(!succeeds(prev[j]));
                    }
                }
                assert(succeeds(runs[i]));
            }
            if forall|i: int| 0 <= i < runs.len() ==> !succeeds(#[trigger] runs[i]) {
                assert forall|i: int| 0 <= i < prev.len() implies !succeeds(#[trigger] prev[i]) by {
                    assert(!succeeds(runs[i]));
                }
            }
        }
    }
}

} // verus!
