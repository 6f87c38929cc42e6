//! Transactions, their identifiers, and transactions that are not mined yet.

use std::sync::Arc;
use vstd::prelude::*;

use crate::chain::orchard;
use crate::chain::sapling;
use crate::chain::sprout;
use crate::chain::transparent;

verus! {

/// The identifier of a transaction by its effects: it does not change when
/// the transaction's signatures or proofs change.
#[derive(Clone, Copy, Debug, PartialEq, Eq, Hash, Structural)]
pub struct Hash(pub u128, pub u128);

/// The digest of the authorizing data of a version 5 transaction: its
/// signatures and proofs.
#[derive(Clone, Copy, Debug, PartialEq, Eq, Hash, Structural)]
pub struct AuthDigest(pub u128, pub u128);

/// The witnessed identifier of a version 5 transaction: the identifier of its
/// effects together with the digest of its authorizing data.
#[derive(Clone, Copy, Debug, PartialEq, Eq, Hash, Structural)]
pub struct WtxId {
    pub id: Hash,
    pub auth_digest: AuthDigest,
}

/// The identifier of a transaction that is not mined yet.
#[derive(Clone, Copy, Debug, PartialEq, Eq, Hash, Structural)]
pub enum UnminedTxId {
    /// The identifier of a transaction of a version before 5, which covers the whole transaction.
    Legacy(Hash),
    /// The identifier of a version 5 transaction.
    Witnessed(WtxId),
}

impl UnminedTxId {
    /// The identifier under which the transaction is mined: that of its effects alone.
    pub open spec fn spec_mined_id(self) -> Hash {
        match self {
            UnminedTxId::Legacy(hash) => hash,
            UnminedTxId::Witnessed(wtx_id) => wtx_id.id,
        }
    }

    /// The identifier under which the transaction is mined: that of its effects alone.
    #[verifier::when_used_as_spec(spec_mined_id)]
    pub fn mined_id(self) -> (hash: Hash)
        ensures
            hash == self.spec_mined_id(),
    {
        match self {
            UnminedTxId::Legacy(hash) => hash,
            UnminedTxId::Witnessed(wtx_id) => wtx_id.id,
        }
    }
}

/// A transaction.
#[derive(Debug, PartialEq, Eq)]
pub struct Transaction {
    /// The version of the transaction format.
    pub version: u32,
    /// The transparent inputs.
    pub inputs: Vec<transparent::Input>,
    /// The transparent outputs.
    pub outputs: Vec<transparent::Output>,
    /// The Sprout JoinSplits.
    pub joinsplits: Vec<sprout::JoinSplit>,
    /// The Sapling part, if there is one.
    pub sapling_shielded_data: Option<sapling::ShieldedData>,
    /// The Orchard part, if there is one.
    pub orchard_shielded_data: Option<orchard::ShieldedData>,
}

impl Transaction {
    /// The transparent outputs that the transaction spends.
    pub open spec fn spec_spent_outpoints(&self) -> Seq<transparent::OutPoint> {
        transparent::outpoints_of(self.inputs@)
    }

    /// The Sprout nullifiers that the transaction reveals.
    pub open spec fn spec_sprout_nullifiers(&self) -> Seq<sprout::Nullifier> {
        sprout::nullifiers_of(self.joinsplits@)
    }

    /// The Sapling spends of the transaction.
    pub open spec fn spec_sapling_spends(&self) -> Seq<sapling::Spend> {
        match self.sapling_shielded_data {
            Some(shielded_data) => shielded_data.spends@,
            None => Seq::empty(),
        }
    }

    /// The number of Sapling outputs of the transaction.
    pub open spec fn spec_sapling_output_count(&self) -> nat {
        match self.sapling_shielded_data {
            Some(shielded_data) => shielded_data.output_count as nat,
            None => 0,
        }
    }

    /// The Sapling nullifiers that the transaction reveals.
    pub open spec fn spec_sapling_nullifiers(&self) -> Seq<sapling::Nullifier> {
        sapling::nullifiers_of(self.spec_sapling_spends())
    }

    /// The Orchard actions of the transaction.
    pub open spec fn spec_orchard_actions(&self) -> Seq<orchard::Action> {
        match self.orchard_shielded_data {
            Some(shielded_data) => shielded_data.actions@,
            None => Seq::empty(),
        }
    }

    /// The Orchard nullifiers that the transaction reveals.
    pub open spec fn spec_orchard_nullifiers(&self) -> Seq<orchard::Nullifier> {
        orchard::nullifiers_of(self.spec_orchard_actions())
    }

    /// Whether the transaction is a coinbase transaction: its only
    /// transparent input makes new coins.
    pub open spec fn spec_is_coinbase(&self) -> bool {
        self.inputs@.len() == 1 && self.inputs@[0] is Coinbase
    }

    /// Whether one of the transparent inputs spends an earlier output.
    pub open spec fn spec_contains_prevout_input(&self) -> bool {
        exists|i: int| 0 <= i < self.inputs@.len() && #[trigger] self.inputs@[i] is PrevOut
    }

    /// Whether the transaction is a coinbase transaction.
    pub fn is_coinbase(&self) -> (coinbase: bool)
        ensures
            coinbase == self.spec_is_coinbase(),
    {
        self.inputs.len() == 1 && match &self.inputs[0] {
            transparent::Input::Coinbase { .. } => true,
            transparent::Input::PrevOut { .. } => false,
        }
    }

    /// Whether one of the transparent inputs spends an earlier output.
    pub fn contains_prevout_input(&self) -> (found: bool)
        ensures
            found == self.spec_contains_prevout_input(),
    {
        let mut i: usize = 0;
        while i < self.inputs.len()
            invariant
                i <= self.inputs.len(),
                forall|j: int| 0 <= j < i ==> !(#[trigger] self.inputs@[j] is PrevOut),
            decreases self.inputs.len() - i,
        {
            match &self.inputs[i] {
                transparent::Input::PrevOut { .. } => {
                    return true;
                },
                transparent::Input::Coinbase { .. } => {},
            }
            i += 1;
        }
        false
    }

    /// The transparent outputs that the transaction spends.
    pub fn spent_outpoints(&self) -> (spent: Vec<transparent::OutPoint>)
        ensures
            spent@ == self.spec_spent_outpoints(),
    {
        transparent::outpoints(&self.inputs)
    }

    /// The Sprout nullifiers that the transaction reveals.
    pub fn sprout_nullifiers(&self) -> (revealed: Vec<sprout::Nullifier>)
        ensures
            revealed@ == self.spec_sprout_nullifiers(),
    {
        sprout::nullifiers(&self.joinsplits)
    }

    /// The Sapling nullifiers that the transaction reveals.
    pub fn sapling_nullifiers(&self) -> (revealed: Vec<sapling::Nullifier>)
        ensures
            revealed@ == self.spec_sapling_nullifiers(),
    {
        match &self.sapling_shielded_data {
            Some(shielded_data) => sapling::nullifiers(&shielded_data.spends),
            None => {
                proof {
                    assert(sapling::nullifiers_of(Seq::<sapling::Spend>::empty()) =~= Seq::empty());
                }
                Vec::new()
            },
        }
    }

    /// The Orchard nullifiers that the transaction reveals.
    pub fn orchard_nullifiers(&self) -> (revealed: Vec<orchard::Nullifier>)
        ensures
            revealed@ == self.spec_orchard_nullifiers(),
    {
        match &self.orchard_shielded_data {
            Some(shielded_data) => orchard::nullifiers(&shielded_data.actions),
            None => {
                proof {
                    assert(orchard::nullifiers_of(Seq::<orchard::Action>::empty()) =~= Seq::empty());
                }
                Vec::new()
            },
        }
    }

    /// The number of Sprout JoinSplits.
    pub fn joinsplit_count(&self) -> (count: usize)
        ensures
            count == self.joinsplits@.len(),
    {
        self.joinsplits.len()
    }

    /// The number of Sapling spends.
    pub fn sapling_spend_count(&self) -> (count: usize)
        ensures
            count == self.spec_sapling_spends().len(),
    {
        match &self.sapling_shielded_data {
            Some(shielded_data) => shielded_data.spends.len(),
            None => 0,
        }
    }

    /// The number of Sapling outputs.
    pub fn sapling_outputs(&self) -> (count: usize)
        ensures
            count == self.spec_sapling_output_count(),
    {
        match &self.sapling_shielded_data {
            Some(shielded_data) => shielded_data.output_count,
            None => 0,
        }
    }

    /// The number of Orchard actions.
    pub fn orchard_action_count(&self) -> (count: usize)
        ensures
            count == self.spec_orchard_actions().len(),
    {
        match &self.orchard_shielded_data {
            Some(shielded_data) => shielded_data.actions.len(),
            None => 0,
        }
    }
}

/// `Arc::clone`: another pointer to the same transaction.
#[verifier::external_body]
fn share(transaction: &Arc<Transaction>) -> (shared: Arc<Transaction>)
    ensures
        shared == *transaction,
{
    Arc::clone(transaction)
}

/// A transaction that is not mined yet, with what the mempool has to know of it.
#[derive(Debug, PartialEq, Eq)]
pub struct UnminedTx {
    /// The identifier of the transaction.
    pub id: UnminedTxId,
    /// The transaction itself.
    pub transaction: Arc<Transaction>,
    /// The size of the serialized transaction, in bytes.
    pub size: usize,
    /// The fee that the transaction pays to the miner, in zatoshis.
    pub miner_fee: u64,
}

impl Clone for UnminedTx {
    fn clone(&self) -> (copy: Self)
        ensures
            copy == *self,
    {
        UnminedTx {
            id: self.id,
            transaction: share(&self.transaction),
            size: self.size,
            miner_fee: self.miner_fee,
        }
    }
}

} // verus!
