//! The Sprout shielded pool, as far as the node looks into it.

use vstd::prelude::*;

verus! {

/// A Sprout nullifier: the value that a spend of a Sprout note reveals.
#[derive(Clone, Copy, Debug, PartialEq, Eq, Hash, Structural)]
pub struct Nullifier(pub u128, pub u128);

/// A Sprout JoinSplit, which spends two notes.
#[derive(Clone, Copy, Debug, PartialEq, Eq, Hash, Structural)]
pub struct JoinSplit {
    /// The nullifiers of the two notes that are spent.
    pub first_nullifier: Nullifier,
    pub second_nullifier: Nullifier,
}

/// The nullifiers that `joinsplits` reveal, in order.
pub open spec fn nullifiers_of(joinsplits: Seq<JoinSplit>) -> Seq<Nullifier>
    decreases joinsplits.len(),
{
    if joinsplits.len() == 0 {
        Seq::empty()
    } else {
        nullifiers_of(joinsplits.drop_last()).push(joinsplits.last().first_nullifier).push(
            joinsplits.last().second_nullifier,
        )
    }
}

/// The nullifiers that `joinsplits` reveal.
pub fn nullifiers(joinsplits: &Vec<JoinSplit>) -> (revealed: Vec<Nullifier>)
    ensures
        revealed@ == nullifiers_of(joinsplits@),
{
    let mut revealed: Vec<Nullifier> = Vec::new();
    let mut i: usize = 0;
    while i < joinsplits.len()
        invariant
            i <= joinsplits.len(),
            revealed@ == nullifiers_of(joinsplits@.take(i as int)),
        decreases joinsplits.len() - i,
    {
        proof {
            let next = joinsplits@.take(i + 1);
            assert(next.drop_last() =~= joinsplits@.take(i as int));
            assert(next.last() == joinsplits@[i as int]);
        }
        revealed.push(joinsplits[i].first_nullifier);
        revealed.push(joinsplits[i].second_nullifier);
        i += 1;
    }
    proof {
        assert(joinsplits@.take(joinsplits@.len() as int) =~= joinsplits@);
    }
    revealed
}

} // verus!
