//! Transparent inputs and outputs.

use vstd::prelude::*;

use crate::chain::block;
use crate::chain::transaction;

verus! {

/// A reference to one output of an earlier transaction.
#[derive(Clone, Copy, Debug, PartialEq, Eq, Hash, Structural)]
pub struct OutPoint {
    /// The transaction that holds the output.
    pub hash: transaction::Hash,
    /// The position of the output in that transaction.
    pub index: u32,
}

/// A transparent input to a transaction.
#[derive(Debug, PartialEq, Eq)]
pub enum Input {
    /// The spend of an earlier output.
    PrevOut { outpoint: OutPoint, unlock_script: Vec<u8>, sequence: u32 },
    /// New coins, made by a coinbase transaction.
    Coinbase { height: block::Height, data: Vec<u8>, sequence: u32 },
}

/// A transparent output of a transaction.
#[derive(Debug, PartialEq, Eq)]
pub struct Output {
    /// The value of the output, in zatoshis.
    pub value: u64,
    /// The script that says who may spend the output.
    pub lock_script: Vec<u8>,
}

/// The outputs that `inputs` spend, in order.
pub open spec fn outpoints_of(inputs: Seq<Input>) -> Seq<OutPoint>
    decreases inputs.len(),
{
    if inputs.len() == 0 {
        Seq::empty()
    } else {
        let before = outpoints_of(inputs.drop_last());
        match inputs.last() {
            Input::PrevOut { outpoint, .. } => before.push(outpoint),
            Input::Coinbase { .. } => before,
        }
    }
}

/// The outputs that `inputs` spend.
pub fn outpoints(inputs: &Vec<Input>) -> (spent: Vec<OutPoint>)
    ensures
        spent@ == outpoints_of(inputs@),
{
    let mut spent: Vec<OutPoint> = Vec::new();
    let mut i: usize = 0;
    while i < inputs.len()
        invariant
            i <= inputs.len(),
            spent@ == outpoints_of(inputs@.take(i as int)),
        decreases inputs.len() - i,
    {
        proof {
            let next = inputs@.take(i + 1);
            assert(next.drop_last() =~= inputs@.take(i as int));
            assert(next.last() == inputs@[i as int]);
        }
        match &inputs[i] {
            Input::PrevOut { outpoint, .. } => {
                spent.push(*outpoint);
            },
            Input::Coinbase { .. } => {},
        }
        i += 1;
    }
    proof {
        assert(inputs@.take(inputs@.len() as int) =~= inputs@);
    }
    spent
}

} // verus!
