//! Checks on the shape of a transaction.

use vstd::prelude::*;

use crate::chain::transaction::Transaction;
use crate::consensus::error::TransactionError;

verus! {

/// Whether `tx` takes value from somewhere: it has a transparent input, a
/// JoinSplit, a Sapling spend or an Orchard action.
pub open spec fn has_inputs(tx: Transaction) -> bool {
    tx.inputs@.len() + tx.spec_sapling_spends().len() + tx.joinsplits@.len() + tx.spec_orchard_actions().len()
        > 0
}

/// Whether `tx` gives value to somewhere: it has a transparent output, a
/// JoinSplit, a Sapling output or an Orchard action.
pub open spec fn has_outputs(tx: Transaction) -> bool {
    tx.outputs@.len() + tx.spec_sapling_output_count() + tx.joinsplits@.len() + tx.spec_orchard_actions().len()
        > 0
}

/// Whether the Orchard part of `tx` allows spends.
pub open spec fn orchard_spends_enabled(tx: Transaction) -> bool {
    tx.orchard_shielded_data matches Some(shielded_data) && shielded_data.flags.enable_spends
}

/// The rule on coinbase transactions that `tx` breaks first, if it breaks one.
pub open spec fn coinbase_fault(tx: Transaction) -> Option<TransactionError> {
    if !tx.spec_is_coinbase() {
        None
    } else if tx.spec_contains_prevout_input() {
        Some(TransactionError::CoinbaseHasPrevOutInput)
    } else if tx.joinsplits@.len() > 0 {
        Some(TransactionError::CoinbaseHasJoinSplit)
    } else if tx.spec_sapling_spends().len() > 0 {
        Some(TransactionError::CoinbaseHasSpend)
    } else if orchard_spends_enabled(tx) {
        Some(TransactionError::CoinbaseHasEnableSpendsOrchard)
    } else {
        None
    }
}

/// Checks that the transaction has inputs and outputs.
///
/// A transaction without anything to spend fails with `NoInputs`; one with
/// something to spend and nothing to pay to fails with `NoOutputs`.
pub fn has_inputs_and_outputs(tx: &Transaction) -> (checked: Result<(), TransactionError>)
    ensures
        !has_inputs(*tx) ==> checked == Err::<(), TransactionError>(TransactionError::NoInputs),
        has_inputs(*tx) && !has_outputs(*tx) ==> checked == Err::<(), TransactionError>(
            TransactionError::NoOutputs,
        ),
        has_inputs(*tx) && has_outputs(*tx) ==> checked == Ok::<(), TransactionError>(()),
{
    let no_inputs = tx.inputs.len() == 0 && tx.sapling_spend_count() == 0 && tx.joinsplit_count() == 0
        && tx.orchard_action_count() == 0;
    let no_outputs = tx.outputs.len() == 0 && tx.sapling_outputs() == 0 && tx.joinsplit_count() == 0
        && tx.orchard_action_count() == 0;
    if no_inputs {
        Err(TransactionError::NoInputs)
    } else if no_outputs {
        Err(TransactionError::NoOutputs)
    } else {
        Ok(())
    }
}

/// Checks that a coinbase transaction spends nothing: no earlier transparent
/// output, no JoinSplit, no Sapling spend, and no Orchard spend allowed by its
/// flags.  A transaction that is no coinbase transaction passes.
pub fn coinbase_tx_no_prevout_joinsplit_spend(tx: &Transaction) -> (checked: Result<(), TransactionError>)
    ensures
        coinbase_fault(*tx) matches Some(fault) ==> checked == Err::<(), TransactionError>(fault),
        coinbase_fault(*tx).is_none() ==> checked == Ok::<(), TransactionError>(()),
{
    if tx.is_coinbase() {
        if tx.contains_prevout_input() {
            return Err(TransactionError::CoinbaseHasPrevOutInput);
        } else if tx.joinsplit_count() > 0 {
            return Err(TransactionError::CoinbaseHasJoinSplit);
        } else if tx.sapling_spend_count() > 0 {
            return Err(TransactionError::CoinbaseHasSpend);
        }
        match &tx.orchard_shielded_data {
            Some(shielded_data) => {
                if shielded_data.flags.enable_spends {
                    return Err(TransactionError::CoinbaseHasEnableSpendsOrchard);
                }
            },
            None => {},
        }
    }
    Ok(())
}

} // verus!
