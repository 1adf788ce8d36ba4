//! Verified core of an L2 block synchronizer: decides what to fetch for each
//! height, which classes a block still needs, whether a state update matches
//! the recomputed state root, and what the node publishes about the chain.

pub mod classes;
pub mod commitment;
pub mod config;
pub mod coordinator;
pub mod dispatch;
pub mod download;
pub mod felt;
pub mod model;
pub mod store;
pub mod tip;

pub use classes::{aggregate_classes, class_gap, fetch_missing_classes};
pub use commitment::{build_commitment_ops, verify_l2, TrieOp, VerifyError};
pub use config::{FetchConfig, L1SyncParams};
pub use coordinator::{
    needs_genesis_seed, seal_request, tip_refresh_due, Action, FetchOutcome, Phase, SealRequest,
    SyncState,
};
pub use dispatch::{chain_dispatches, Dispatch};
pub use download::{collect_class_downloads, ClassDownload, ClassDownloadError};
pub use felt::Felt;
pub use model::{
    Block, ContractClassData, DeclaredClass, DeployedContract, L2StateUpdate, NonceUpdate,
    ReplacedClass, StateDiff, StateUpdate, StorageWrite,
};
pub use store::{
    get_highest_block_hash_and_number, get_pending_block, get_pending_state_update,
    get_verified_tip, update_l2, ObservationStore,
};
pub use tip::{is_caught_up, update_starknet_data, TipError};
