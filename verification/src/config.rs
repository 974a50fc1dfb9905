use vstd::prelude::*;

verus! {

/// The process-wide configuration, loaded once at start and passed by
/// reference into each component: no ambient global.
#[derive(Debug, Clone)]
pub struct Config {
    pub sender_address: String,
    pub private_key: String,
    pub arbitrum_testnet_contract: String,
    pub arbitrum_testnet_chain_id: i32,
    pub arbitrum_vertex_testnet_subscribe_url: String,
    pub arbitrum_vertex_testnet_gateway_url: String,
}

} // verus!
