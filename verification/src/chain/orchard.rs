//! The Orchard shielded pool, as far as the node looks into it.

use vstd::prelude::*;

verus! {

/// An Orchard nullifier: the value that an Orchard action reveals for the note it spends.
#[derive(Clone, Copy, Debug, PartialEq, Eq, Hash, Structural)]
pub struct Nullifier(pub u128, pub u128);

/// The flags of the Orchard part of a transaction.
#[derive(Clone, Copy, Debug, PartialEq, Eq, Hash, Structural)]
pub struct Flags {
    /// Whether the actions may spend notes.
    pub enable_spends: bool,
    /// Whether the actions may create notes.
    pub enable_outputs: bool,
}

/// An Orchard action, which spends one note and creates one.
#[derive(Clone, Copy, Debug, PartialEq, Eq, Hash, Structural)]
pub struct Action {
    /// The nullifier of the note that is spent.
    pub nullifier: Nullifier,
}

/// The Orchard part of a transaction.
#[derive(Debug, PartialEq, Eq)]
pub struct ShieldedData {
    /// The flags.
    pub flags: Flags,
    /// The actions.
    pub actions: Vec<Action>,
}

/// The nullifiers that `actions` reveal, in order.
pub open spec fn nullifiers_of(actions: Seq<Action>) -> Seq<Nullifier> {
    actions.map_values(|action: Action| action.nullifier)
}

/// The nullifiers that `actions` reveal.
pub fn nullifiers(actions: &Vec<Action>) -> (revealed: Vec<Nullifier>)
    ensures
        revealed@ == nullifiers_of(actions@),
{
    let mut revealed: Vec<Nullifier> = Vec::new();
    let mut i: usize = 0;
    while i < actions.len()
        invariant
            i <= actions.len(),
            revealed@ == nullifiers_of(actions@.take(i as int)),
        decreases actions.len() - i,
    {
        revealed.push(actions[i].nullifier);
        proof {
            assert(nullifiers_of(actions@.take(i + 1)) =~= nullifiers_of(actions@.take(i as int)).push(
                actions@[i as int].nullifier,
            ));
        }
        i += 1;
    }
    proof {
        assert(actions@.take(actions@.len() as int) =~= actions@);
    }
    revealed
}

/// The diversifier of an Orchard address: eleven bytes.
#[derive(Clone, Debug, PartialEq, Eq)]
pub struct Diversifier(pub Vec<u8>);

/// The transmission key of an Orchard address: thirty-two bytes.
#[derive(Clone, Debug, PartialEq, Eq)]
pub struct TransmissionKey(pub Vec<u8>);

/// A raw Orchard shielded payment address.
#[derive(Clone, Debug, PartialEq, Eq)]
pub struct Address {
    pub diversifier: Diversifier,
    pub transmission_key: TransmissionKey,
}

impl Address {
    /// The address that is made of the two parts.
    pub fn new(diversifier: Diversifier, transmission_key: TransmissionKey) -> (address: Self)
        ensures
            address.diversifier == diversifier,
            address.transmission_key == transmission_key,
    {
        Address { diversifier, transmission_key }
    }

    /// The raw encoding of the address: the bytes of the diversifier, then
    /// those of the transmission key.
    pub fn to_bytes(&self) -> (bytes: Vec<u8>)
        ensures
            bytes@ == self.diversifier.0@ + self.transmission_key.0@,
    {
        let mut bytes: Vec<u8> = Vec::new();
        let mut i: usize = 0;
        while i < self.diversifier.0.len()
            invariant
                i <= self.diversifier.0.len(),
                bytes@ == self.diversifier.0@.take(i as int),
            decreases self.diversifier.0.len() - i,
        {
            bytes.push(self.diversifier.0[i]);
            proof {
                assert(self.diversifier.0@.take(i + 1) =~= self.diversifier.0@.take(i as int).push(
                    self.diversifier.0@[i as int],
                ));
            }
            i += 1;
        }
        proof {
            assert(self.diversifier.0@.take(self.diversifier.0@.len() as int) =~= self.diversifier.0@);
        }
        let mut k: usize = 0;
        while k < self.transmission_key.0.len()
            invariant
                k <= self.transmission_key.0.len(),
                bytes@ == self.diversifier.0@ + self.transmission_key.0@.take(k as int),
            decreases self.transmission_key.0.len() - k,
        {
            bytes.push(self.transmission_key.0[k]);
            proof {
                assert(self.diversifier.0@ + self.transmission_key.0@.take(k + 1) =~= (self.diversifier.0@
                    + self.transmission_key.0@.take(k as int)).push(self.transmission_key.0@[k as int]));
            }
            k += 1;
        }
        proof {
            assert(self.transmission_key.0@.take(self.transmission_key.0@.len() as int)
                =~= self.transmission_key.0@);
        }
        bytes
    }
}

} // verus!
