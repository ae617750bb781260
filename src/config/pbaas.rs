//! One monitored chain's configuration.

use crate::ids::Address;
use vstd::prelude::*;

verus! {

/// What a worker needs to know of its chain.
#[derive(Debug, Clone)]
pub struct Config {
    pub rpc_user: String,
    pub rpc_password: String,
    pub rpc_port: u16,
    pub zmq_block_hash_url: String,
    pub currency_id: Address,
    pub referral_currency_id: Address,
    pub explorer_url: String,
    pub fee: u64,
    pub referral_amount: u64,
}

} // verus!
