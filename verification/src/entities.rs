//! Domain entities carried through the ingestion pipeline, modelled as
//! plain values: fixed-width binary fields (hashes, addresses, topics)
//! are byte vectors, quantities are unsigned integers.

use vstd::prelude::*;

verus! {

/// One block header row: number is the natural primary key.
pub struct Block {
    pub number: u64,
    pub hash: Vec<u8>,
    pub timestamp: u64,
}

/// One transaction row; `hash` is the primary key and the upsert key
/// under chain reorganizations. `to` is absent for contract creation.
pub struct Transaction {
    pub hash: Vec<u8>,
    pub nonce: u64,
    pub block_hash: Vec<u8>,
    pub block_number: u64,
    pub transaction_index: u64,
    pub from: Vec<u8>,
    pub to: Option<Vec<u8>>,
    pub value: u128,
    pub gas: u128,
    pub gas_price: u128,
}

/// A transaction receipt; consumed only for the fee part of the miner
/// reward, never persisted as a row of its own.
pub struct Receipt {
    pub transaction_hash: Vec<u8>,
    pub gas_used: u64,
}

/// One event log row. Absent optional fields are stored as NULL.
/// `topics` is not a column of the logs table: each topic becomes one
/// `Topic` row carrying this log's address.
pub struct Log {
    pub address: Vec<u8>,
    pub data: Vec<u8>,
    pub block_hash: Option<Vec<u8>>,
    pub block_number: Option<u64>,
    pub transaction_hash: Option<Vec<u8>>,
    pub transaction_index: Option<u64>,
    pub log_index: Option<u64>,
    pub transaction_log_index: Option<u64>,
    pub log_type: Option<String>,
    pub removed: Option<bool>,
    pub topics: Vec<Vec<u8>>,
}

/// One topic row: a denormalized child of a log.
pub struct Topic {
    pub topic: Vec<u8>,
    pub log_address: Vec<u8>,
}

/// One miner-reward row, one per block.
pub struct Reward {
    pub block_number: u64,
    pub reward: u128,
}

} // verus!
