//! Inventory items: what a peer says it has, or asks for, by hash.

use vstd::prelude::*;

use crate::chain::block;
use crate::chain::transaction;

verus! {

/// The name of a block or a transaction in an `inv`, `getdata` or `notfound` message.
#[derive(Clone, Copy, Debug, PartialEq, Eq, Hash, Structural)]
pub enum InventoryHash {
    /// The sender could not give the item a name.
    Error,
    /// A transaction, by the identifier of its effects.
    Tx(transaction::Hash),
    /// A block.
    Block(block::Hash),
    /// A block of which only some transactions are wanted.
    FilteredBlock(block::Hash),
    /// A version 5 transaction, by its witnessed identifier.
    Wtx(transaction::WtxId),
}

} // verus!
