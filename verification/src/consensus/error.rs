//! Why a transaction fails verification.

use vstd::prelude::*;

verus! {

/// A consensus rule that a transaction breaks.
#[derive(Clone, Copy, Debug, PartialEq, Eq, Hash, Structural)]
pub enum TransactionError {
    /// A coinbase transaction spends an earlier transparent output.
    CoinbaseHasPrevOutInput,
    /// A coinbase transaction has a Sprout JoinSplit.
    CoinbaseHasJoinSplit,
    /// A coinbase transaction has a Sapling spend.
    CoinbaseHasSpend,
    /// A coinbase transaction allows Orchard spends.
    CoinbaseHasEnableSpendsOrchard,
    /// The transaction has no transparent input, JoinSplit, Sapling spend or Orchard action.
    NoInputs,
    /// The transaction has no transparent output, JoinSplit, Sapling output or Orchard action.
    NoOutputs,
}

} // verus!
