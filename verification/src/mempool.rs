//! The mempool: the transactions that this node has verified and that no block holds yet.

pub mod error;
pub mod service;
pub mod storage;
pub mod verified_set;
