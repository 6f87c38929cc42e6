//! Why the mempool turns a transaction down.

use vstd::prelude::*;

use crate::mempool::storage::StorageRejectionError;

verus! {

/// Why the mempool did not take a transaction.
#[derive(Clone, Copy, Debug, PartialEq, Eq, Structural)]
pub enum MempoolError {
    /// The transaction is in the mempool already.
    InMempool,
    /// The mempool has rejected the transaction, for the reason given.
    Rejected(StorageRejectionError),
    /// The transaction is queued for download or verification already.
    AlreadyQueued,
    /// The queue of transactions to download and verify is full.
    FullQueue,
    /// The mempool is not active, because the node is not near the chain tip.
    Disabled,
}

} // verus!
