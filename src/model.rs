use vstd::prelude::*;

use crate::felt::Felt;

verus! {

/// A contract deployed by a block: its address and the class it instantiates.
#[derive(Clone, Copy, Debug, PartialEq, Eq, Structural)]
pub struct DeployedContract {
    pub address: Felt,
    pub class_hash: Felt,
}

/// A class declared by a block, with the hash of its compiled form.
#[derive(Clone, Copy, Debug, PartialEq, Eq, Structural)]
pub struct DeclaredClass {
    pub class_hash: Felt,
    pub compiled_class_hash: Felt,
}

/// One write to a contract's storage.
#[derive(Clone, Copy, Debug, PartialEq, Eq, Structural)]
pub struct StorageWrite {
    pub address: Felt,
    pub key: Felt,
    pub value: Felt,
}

/// A contract's new nonce.
#[derive(Clone, Copy, Debug, PartialEq, Eq, Structural)]
pub struct NonceUpdate {
    pub address: Felt,
    pub nonce: Felt,
}

/// A contract whose class was replaced.
#[derive(Clone, Copy, Debug, PartialEq, Eq, Structural)]
pub struct ReplacedClass {
    pub address: Felt,
    pub class_hash: Felt,
}

/// Everything that one block changes in the global state, each list in the
/// order the gateway gave it.
#[derive(Clone, Debug)]
pub struct StateDiff {
    pub deployed_contracts: Vec<DeployedContract>,
    pub declared_classes: Vec<DeclaredClass>,
    pub storage_writes: Vec<StorageWrite>,
    pub nonces: Vec<NonceUpdate>,
    pub replaced_classes: Vec<ReplacedClass>,
}

/// The state update of one block. `block_hash` is absent only for the pending
/// block.
#[derive(Clone, Debug)]
pub struct StateUpdate {
    pub block_hash: Option<Felt>,
    pub old_root: Felt,
    pub new_root: Felt,
    pub state_diff: StateDiff,
}

/// A block as the gateway reports it: the fields that the sync logic reads,
/// and its encoded body, which is passed on untouched.
#[derive(Clone, Debug)]
pub struct Block {
    pub block_number: Option<u64>,
    pub parent_block_hash: Felt,
    pub payload: Vec<u8>,
}

/// A downloaded class definition and its hash.
#[derive(Clone, Debug)]
pub struct ContractClassData {
    pub hash: Felt,
    pub definition: Vec<u8>,
}

/// The latest verified L2 state: the height, the state root recomputed for it
/// and its block hash.
#[derive(Clone, Copy, Debug, PartialEq, Eq, Structural)]
pub struct L2StateUpdate {
    pub block_number: u64,
    pub global_root: Felt,
    pub block_hash: Felt,
}

impl StateDiff {
    /// A diff that changes nothing.
    pub fn empty() -> (r: StateDiff)
        ensures
            r.deployed_contracts@.len() == 0,
            r.declared_classes@.len() == 0,
            r.storage_writes@.len() == 0,
            r.nonces@.len() == 0,
            r.replaced_classes@.len() == 0,
    {
        StateDiff {
            deployed_contracts: Vec::new(),
            declared_classes: Vec::new(),
            storage_writes: Vec::new(),
            nonces: Vec::new(),
            replaced_classes: Vec::new(),
        }
    }
}

} // verus!
