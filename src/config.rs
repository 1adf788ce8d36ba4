use vstd::prelude::*;

use crate::felt::Felt;

verus! {

/// Seconds between two polls of the L1 gas price, unless set otherwise.
pub const DEFAULT_GAS_PRICE_POLL_SECS: u64 = 10;

/// Where and how blocks and state updates are fetched.
#[derive(Clone, Debug)]
pub struct FetchConfig {
    /// The URL of the sequencer gateway.
    pub gateway: String,
    /// The URL of the feeder gateway.
    pub feeder_gateway: String,
    /// The chain served by the gateway.
    pub chain_id: Felt,
    /// How many class downloads may run at once.
    pub workers: u32,
    /// Whether to play a sound when a new block is fetched.
    pub sound: bool,
    /// The address of the core contract on L1.
    pub l1_core_address: [u8; 20],
}

/// Settings of the L1 side of the node.
#[derive(Clone, Debug)]
pub struct L1SyncParams {
    /// Disables the L1 sync.
    pub sync_l1_disabled: bool,
    /// The L1 RPC endpoint used for state verification.
    pub l1_endpoint: Option<String>,
    /// A fixed gas price; none means it is read from L1.
    pub gas_price: Option<u64>,
    /// A fixed blob gas price.
    pub blob_gas_price: Option<u64>,
    /// A fixed STRK gas price.
    pub strk_gas_price: Option<u64>,
    /// A fixed STRK blob gas price.
    pub strk_blob_gas_price: Option<u64>,
    /// Seconds between two polls of the gas price.
    pub gas_price_poll_secs: u64,
}

impl Default for L1SyncParams {
    fn default() -> (r: Self)
        ensures
            !r.sync_l1_disabled,
            r.l1_endpoint is None,
            r.gas_price is None,
            r.blob_gas_price is None,
            r.strk_gas_price is None,
            r.strk_blob_gas_price is None,
            r.gas_price_poll_secs == DEFAULT_GAS_PRICE_POLL_SECS,
    {
        L1SyncParams {
            sync_l1_disabled: false,
            l1_endpoint: None,
            gas_price: None,
            blob_gas_price: None,
            strk_gas_price: None,
            strk_blob_gas_price: None,
            gas_price_poll_secs: DEFAULT_GAS_PRICE_POLL_SECS,
        }
    }
}

} // verus!
