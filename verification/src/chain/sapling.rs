//! The Sapling shielded pool, as far as the node looks into it.

use vstd::prelude::*;

verus! {

/// A Sapling nullifier: the value that a spend of a Sapling note reveals.
#[derive(Clone, Copy, Debug, PartialEq, Eq, Hash, Structural)]
pub struct Nullifier(pub u128, pub u128);

/// A Sapling spend.
#[derive(Clone, Copy, Debug, PartialEq, Eq, Hash, Structural)]
pub struct Spend {
    /// The nullifier of the note that is spent.
    pub nullifier: Nullifier,
}

/// The Sapling part of a transaction.
#[derive(Debug, PartialEq, Eq)]
pub struct ShieldedData {
    /// The spends.
    pub spends: Vec<Spend>,
    /// The number of outputs.
    pub output_count: usize,
}

/// The nullifiers that `spends` reveal, in order.
pub open spec fn nullifiers_of(spends: Seq<Spend>) -> Seq<Nullifier> {
    spends.map_values(|spend: Spend| spend.nullifier)
}

/// The nullifiers that `spends` reveal.
pub fn nullifiers(spends: &Vec<Spend>) -> (revealed: Vec<Nullifier>)
    ensures
        revealed@ == nullifiers_of(spends@),
{
    let mut revealed: Vec<Nullifier> = Vec::new();
    let mut i: usize = 0;
    while i < spends.len()
        invariant
            i <= spends.len(),
            revealed@ == nullifiers_of(spends@.take(i as int)),
        decreases spends.len() - i,
    {
        revealed.push(spends[i].nullifier);
        proof {
            assert(nullifiers_of(spends@.take(i + 1)) =~= nullifiers_of(spends@.take(i as int)).push(
                spends@[i as int].nullifier,
            ));
        }
        i += 1;
    }
    proof {
        assert(spends@.take(spends@.len() as int) =~= spends@);
    }
    revealed
}

} // verus!
