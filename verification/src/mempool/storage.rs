//! The storage of the mempool: the verified transactions, and the identifiers
//! of the transactions that were rejected, each with the reason.

use vstd::prelude::*;

use crate::chain::transaction;
use crate::chain::transaction::{Transaction, UnminedTx, UnminedTxId};
use crate::consensus::error::TransactionError;
use crate::mempool::error::MempoolError;
use crate::mempool::verified_set::{
    distinct_ids, eviction_victim, holds_id, intersects, lemma_eviction_victim,
    lemma_inserted_distinct_ids, spend_conflict, with_inserted, Removal, VerifiedSet,
    MEMPOOL_CAPACITY,
};

verus! {

/// The number of rejections that the storage remembers at most.
pub const REJECTED_CAPACITY: usize = 10_000;

/// Why the storage rejected a transaction.
#[derive(Clone, Copy, Debug, PartialEq, Eq, Structural)]
pub enum StorageRejectionError {
    /// Another transaction in the mempool has spent some of its inputs already.
    SpendConflict,
    /// The best chain tip has reached the expiry height of the transaction.
    Expired,
    /// The transaction was valid, but the mempool was full and the draw fell on it.
    RandomlyEvicted,
    /// The transaction did not pass consensus validation.
    FailedVerification(TransactionError),
}

/// One remembered rejection: the identifier of the transaction, and the reason.
pub type Rejection = (UnminedTxId, StorageRejectionError);

/// What the storage holds: the verified transactions, first inserted first,
/// and the remembered rejections, first recorded first.
pub struct StorageModel {
    pub verified: Seq<UnminedTx>,
    pub rejected: Seq<Rejection>,
}

/// The reason for which `id` was rejected, if it is remembered.
pub open spec fn rejection_of(rejected: Seq<Rejection>, id: UnminedTxId) -> Option<StorageRejectionError>
    decreases rejected.len(),
{
    if rejected.len() == 0 {
        None
    } else if rejected.last().0 == id {
        Some(rejected.last().1)
    } else {
        rejection_of(rejected.drop_last(), id)
    }
}

/// The remembered rejections after one more is recorded.  A memory that is
/// full is emptied first.
pub open spec fn recorded(rejected: Seq<Rejection>, id: UnminedTxId, reason: StorageRejectionError) -> Seq<
    Rejection,
> {
    if rejected.len() >= REJECTED_CAPACITY {
        seq![(id, reason)]
    } else {
        rejected.push((id, reason))
    }
}

/// Whether the two transactions spend something in common: a transparent
/// output, or a note of one of the three shielded pools.
pub open spec fn transactions_conflict(a: &Transaction, b: &Transaction) -> bool {
    ||| intersects(a.spec_spent_outpoints(), b.spec_spent_outpoints())
    ||| intersects(a.spec_sprout_nullifiers(), b.spec_sprout_nullifiers())
    ||| intersects(a.spec_sapling_nullifiers(), b.spec_sapling_nullifiers())
    ||| intersects(a.spec_orchard_nullifiers(), b.spec_orchard_nullifiers())
}

/// What the storage holds after the insertion of `tx`, and what the insertion returns.
///
/// - A transaction whose rejection is remembered is turned down with the
///   remembered reason.
/// - A transaction that is in the mempool is turned down, and nothing changes.
/// - A transaction that spends what a verified transaction spends is rejected
///   as a spend conflict, and the rejection is recorded.
/// - Any other transaction joins the verified transactions.  If the mempool
///   was full, the victim of `draw` leaves, and its rejection is recorded as
///   a random eviction.
pub open spec fn insert_result(m: StorageModel, tx: UnminedTx, draw: u128) -> (
    StorageModel,
    Result<UnminedTxId, MempoolError>,
) {
    if let Some(reason) = rejection_of(m.rejected, tx.id) {
        (m, Err(MempoolError::Rejected(reason)))
    } else if holds_id(m.verified, tx.id) {
        (m, Err(MempoolError::InMempool))
    } else if spend_conflict(m.verified, &tx.transaction) {
        (
            StorageModel {
                verified: m.verified,
                rejected: recorded(m.rejected, tx.id, StorageRejectionError::SpendConflict),
            },
            Err(MempoolError::Rejected(StorageRejectionError::SpendConflict)),
        )
    } else if m.verified.len() < MEMPOOL_CAPACITY {
        (StorageModel { verified: m.verified.push(tx), rejected: m.rejected }, Ok(tx.id))
    } else {
        (
            StorageModel {
                verified: with_inserted(m.verified, tx, draw),
                rejected: recorded(
                    m.rejected,
                    m.verified[eviction_victim(m.verified, draw)].id,
                    StorageRejectionError::RandomlyEvicted,
                ),
            },
            Ok(tx.id),
        )
    }
}

/// A rejection that is recorded is remembered, and what was remembered of
/// another transaction is remembered as before or forgotten.
pub proof fn lemma_recorded(rejected: Seq<Rejection>, id: UnminedTxId, reason: StorageRejectionError, other: UnminedTxId)
    ensures
        rejection_of(recorded(rejected, id, reason), id) == Some(reason),
        other != id ==> rejection_of(recorded(rejected, id, reason), other) == rejection_of(rejected, other)
            || rejection_of(recorded(rejected, id, reason), other).is_none(),
        other != id && rejection_of(rejected, other).is_none() ==> rejection_of(
            recorded(rejected, id, reason),
            other,
        ).is_none(),
{
    let after = recorded(rejected, id, reason);
    reveal_with_fuel(rejection_of, 3);
    assert(after.last() == (id, reason));
    if rejected.len() >= REJECTED_CAPACITY {
        assert(after.drop_last() =~= Seq::<Rejection>::empty());
    } else {
        assert(after.drop_last() =~= rejected);
    }
}

/// A transaction that spends what the last of `verified` spends is in
/// conflict with `verified`.
pub proof fn lemma_conflict_with_last(verified: Seq<UnminedTx>, other: UnminedTx)
    requires
        verified.len() > 0,
        transactions_conflict(&verified.last().transaction, &other.transaction),
    ensures
        spend_conflict(verified, &other.transaction),
{
    let last = &verified.last().transaction;
    let tx = &other.transaction;
    if intersects(last.spec_spent_outpoints(), tx.spec_spent_outpoints()) {
        let (i, j) = choose|i: int, j: int|
            #![trigger last.spec_spent_outpoints()[i], tx.spec_spent_outpoints()[j]]
            0 <= i < last.spec_spent_outpoints().len() && 0 <= j < tx.spec_spent_outpoints().len()
                && last.spec_spent_outpoints()[i] == tx.spec_spent_outpoints()[j];
        let all = crate::mempool::verified_set::outpoints_spent_by(verified);
        let before = crate::mempool::verified_set::outpoints_spent_by(verified.drop_last());
        assert(all[before.len() + i] == tx.spec_spent_outpoints()[j]);
    } else if intersects(last.spec_sprout_nullifiers(), tx.spec_sprout_nullifiers()) {
        let (i, j) = choose|i: int, j: int|
            #![trigger last.spec_sprout_nullifiers()[i], tx.spec_sprout_nullifiers()[j]]
            0 <= i < last.spec_sprout_nullifiers().len() && 0 <= j < tx.spec_sprout_nullifiers().len()
                && last.spec_sprout_nullifiers()[i] == tx.spec_sprout_nullifiers()[j];
        let all = crate::mempool::verified_set::sprout_nullifiers_of(verified);
        let before = crate::mempool::verified_set::sprout_nullifiers_of(verified.drop_last());
        assert(all[before.len() + i] == tx.spec_sprout_nullifiers()[j]);
    } else if intersects(last.spec_sapling_nullifiers(), tx.spec_sapling_nullifiers()) {
        let (i, j) = choose|i: int, j: int|
            #![trigger last.spec_sapling_nullifiers()[i], tx.spec_sapling_nullifiers()[j]]
            0 <= i < last.spec_sapling_nullifiers().len() && 0 <= j < tx.spec_sapling_nullifiers().len()
                && last.spec_sapling_nullifiers()[i] == tx.spec_sapling_nullifiers()[j];
        let all = crate::mempool::verified_set::sapling_nullifiers_of(verified);
        let before = crate::mempool::verified_set::sapling_nullifiers_of(verified.drop_last());
        assert(all[before.len() + i] == tx.spec_sapling_nullifiers()[j]);
    } else {
        let (i, j) = choose|i: int, j: int|
            #![trigger last.spec_orchard_nullifiers()[i], tx.spec_orchard_nullifiers()[j]]
            0 <= i < last.spec_orchard_nullifiers().len() && 0 <= j < tx.spec_orchard_nullifiers().len()
                && last.spec_orchard_nullifiers()[i] == tx.spec_orchard_nullifiers()[j];
        let all = crate::mempool::verified_set::orchard_nullifiers_of(verified);
        let before = crate::mempool::verified_set::orchard_nullifiers_of(verified.drop_last());
        assert(all[before.len() + i] == tx.spec_orchard_nullifiers()[j]);
    }
}

/// Of two transactions that spend something in common, the mempool takes the
/// one that comes first and rejects the other as a spend conflict.
///
/// The law holds of a mempool that knows neither transaction (neither is
/// verified, neither is remembered as rejected) and in which neither is in
/// conflict with a verified transaction.  As the two transactions stand for
/// each other, it holds of both orders of insertion, whatever is drawn.
pub proof fn law_one_of_two_conflicting(m: StorageModel, first: UnminedTx, second: UnminedTx, draw_1: u128, draw_2: u128)
    requires
        m.verified.len() <= MEMPOOL_CAPACITY,
        distinct_ids(m.verified),
        first.id != second.id,
        transactions_conflict(&first.transaction, &second.transaction),
        !holds_id(m.verified, first.id),
        !holds_id(m.verified, second.id),
        rejection_of(m.rejected, first.id).is_none(),
        rejection_of(m.rejected, second.id).is_none(),
        !spend_conflict(m.verified, &first.transaction),
        !spend_conflict(m.verified, &second.transaction),
    ensures
        ({
            let (m_1, inserted_1) = insert_result(m, first, draw_1);
            let (m_2, inserted_2) = insert_result(m_1, second, draw_2);
            &&& inserted_1 == Ok::<UnminedTxId, MempoolError>(first.id)
            &&& inserted_2 == Err::<UnminedTxId, MempoolError>(
                MempoolError::Rejected(StorageRejectionError::SpendConflict),
            )
            &&& holds_id(m_2.verified, first.id)
            &&& !holds_id(m_2.verified, second.id)
            &&& rejection_of(m_2.rejected, second.id) == Some(StorageRejectionError::SpendConflict)
            &&& rejection_of(m_2.rejected, first.id).is_none()
        }),
{
    let (m_1, inserted_1) = insert_result(m, first, draw_1);
    lemma_inserted_distinct_ids(m.verified, first, draw_1);
    assert(m_1.verified == with_inserted(m.verified, first, draw_1));
    let last = m_1.verified.len() - 1;
    assert(m_1.verified[last] == first);
    assert(holds_id(m_1.verified, first.id));
    // Whatever else is verified was verified before, so it is not the second transaction.
    assert forall|i: int| 0 <= i < m_1.verified.len() implies (#[trigger] m_1.verified[i]).id != second.id by {
        if i < last {
            if m.verified.len() < MEMPOOL_CAPACITY {
                assert(m_1.verified[i] == m.verified[i]);
            } else {
                lemma_eviction_victim(m.verified, draw_1);
                let v = eviction_victim(m.verified, draw_1);
                let a = if i < v { i } else { i + 1 };
                assert(m_1.verified[i] == m.verified[a]);
            }
        }
    }
    if m.verified.len() >= MEMPOOL_CAPACITY {
        lemma_eviction_victim(m.verified, draw_1);
        let victim = m.verified[eviction_victim(m.verified, draw_1)];
        assert(victim.id != second.id);
        assert(victim.id != first.id);
        lemma_recorded(m.rejected, victim.id, StorageRejectionError::RandomlyEvicted, second.id);
        lemma_recorded(m.rejected, victim.id, StorageRejectionError::RandomlyEvicted, first.id);
    }
    lemma_conflict_with_last(m_1.verified, second);
    lemma_recorded(m_1.rejected, second.id, StorageRejectionError::SpendConflict, first.id);
}

/// A full mempool stays full when it takes a transaction, and the one
/// transaction that leaves is remembered as evicted at random.
///
/// Every transaction that was in the mempool before is in it afterwards, but
/// for the victim of the draw, whose rejection is recorded.
pub proof fn law_full_mempool_evicts_one(m: StorageModel, tx: UnminedTx, draw: u128)
    requires
        m.verified.len() == MEMPOOL_CAPACITY,
        distinct_ids(m.verified),
        insert_result(m, tx, draw).1.is_ok(),
    ensures
        ({
            let after = insert_result(m, tx, draw).0;
            let victim = eviction_victim(m.verified, draw);
            &&& after.verified.len() == MEMPOOL_CAPACITY
            &&& holds_id(after.verified, tx.id)
            &&& 0 <= victim < m.verified.len()
            &&& rejection_of(after.rejected, m.verified[victim].id) == Some(StorageRejectionError::RandomlyEvicted)
            &&& forall|i: int|
                0 <= i < m.verified.len() && i != victim ==> after.verified.contains(#[trigger] m.verified[i])
        }),
{
    let after = insert_result(m, tx, draw).0;
    let victim = eviction_victim(m.verified, draw);
    lemma_eviction_victim(m.verified, draw);
    lemma_recorded(m.rejected, m.verified[victim].id, StorageRejectionError::RandomlyEvicted, tx.id);
    let last = after.verified.len() - 1;
    assert(after.verified[last] == tx);
    assert forall|i: int| 0 <= i < m.verified.len() && i != victim implies after.verified.contains(
        #[trigger] m.verified[i],
    ) by {
        let a = if i < victim { i } else { i - 1 };
        assert(after.verified[a] == m.verified[i]);
    }
}

/// `rand::random`: a number drawn by the thread's generator.  Nothing is
/// known of the number.
#[verifier::external_body]
pub(crate) fn random_draw() -> u128 {
    rand::random::<u128>()
}

/// The storage of the mempool.
pub struct Storage {
    /// The verified transactions.
    verified: VerifiedSet,
    /// The remembered rejections.
    rejected: Vec<Rejection>,
}

impl View for Storage {
    type V = StorageModel;

    closed spec fn view(&self) -> StorageModel {
        StorageModel { verified: self.verified@, rejected: self.rejected@ }
    }
}

impl Default for Storage {
    fn default() -> (storage: Self)
        ensures
            storage.wf(),
            storage@.verified == Seq::<UnminedTx>::empty(),
            storage@.rejected == Seq::<Rejection>::empty(),
    {
        Storage { verified: VerifiedSet::new(), rejected: Vec::new() }
    }
}

impl Storage {
    /// The storage holds at most `MEMPOOL_CAPACITY` verified transactions, no
    /// two with the same identifier, and at most `REJECTED_CAPACITY` rejections.
    pub closed spec fn wf(&self) -> bool {
        &&& self.verified.wf()
        &&& self.rejected@.len() <= REJECTED_CAPACITY
    }

    /// What well-formed storage promises of what it holds.
    pub proof fn lemma_wf(&self)
        requires
            self.wf(),
        ensures
            self@.verified.len() <= MEMPOOL_CAPACITY,
            distinct_ids(self@.verified),
            self@.rejected.len() <= REJECTED_CAPACITY,
    {
        self.verified.lemma_wf();
    }

    /// Remembers that the transaction with the identifier `txid` was
    /// rejected for `reason`: it has expired, or it failed verification.  A
    /// memory that is full is emptied first.
    pub fn reject(&mut self, txid: UnminedTxId, reason: StorageRejectionError)
        requires
            old(self).wf(),
        ensures
            final(self).wf(),
            final(self)@.verified == old(self)@.verified,
            final(self)@.rejected == recorded(old(self)@.rejected, txid, reason),
    {
        self.record(txid, reason)
    }

    /// Remembers that `id` was rejected for `reason`.
    fn record(&mut self, id: UnminedTxId, reason: StorageRejectionError)
        requires
            old(self).wf(),
        ensures
            final(self).wf(),
            final(self)@.verified == old(self)@.verified,
            final(self)@.rejected == recorded(old(self)@.rejected, id, reason),
    {
        if self.rejected.len() >= REJECTED_CAPACITY {
            self.rejected.clear();
        }
        self.rejected.push((id, reason));
    }

    /// Inserts a transaction into the mempool, where the victim of an
    /// eviction is drawn at random.
    ///
    /// Returns the identifier of the transaction if it was inserted, and else
    /// the reason why it was not.  What happens is what `insert_result` says
    /// for one of the numbers that can be drawn.
    pub fn insert(&mut self, tx: UnminedTx) -> (inserted: Result<UnminedTxId, MempoolError>)
        requires
            old(self).wf(),
        ensures
            final(self).wf(),
            exists|draw: u128| (final(self)@, inserted) == #[trigger] insert_result(old(self)@, tx, draw),
    {
        let draw = random_draw();
        self.insert_drawn(tx, draw)
    }

    /// Inserts a transaction into the mempool, where `draw` decides which
    /// transaction leaves a full mempool.
    pub fn insert_drawn(&mut self, tx: UnminedTx, draw: u128) -> (inserted: Result<UnminedTxId, MempoolError>)
        requires
            old(self).wf(),
        ensures
            final(self).wf(),
            (final(self)@, inserted) == insert_result(old(self)@, tx, draw),
    {
        let tx_id = tx.id;
        // A rejection that is remembered is final.
        match self.rejection_error(&tx_id) {
            Some(reason) => {
                return Err(MempoolError::Rejected(reason));
            },
            None => {},
        }
        // A transaction that is in the mempool is not refreshed: a peer that
        // sends it again and again must not keep it alive.
        if self.verified.contains(&tx_id) {
            return Err(MempoolError::InMempool);
        }
        if self.verified.has_spend_conflicts(&tx) {
            self.record(tx_id, StorageRejectionError::SpendConflict);
            return Err(MempoolError::Rejected(StorageRejectionError::SpendConflict));
        }
        match self.verified.insert(tx, draw) {
            Some(victim) => {
                self.record(victim.id, StorageRejectionError::RandomlyEvicted);
            },
            None => {},
        }
        Ok(tx_id)
    }

    /// Whether a transaction with the identifier `txid` is in the mempool.
    pub fn contains(&self, txid: &UnminedTxId) -> (found: bool)
        ensures
            found == holds_id(self@.verified, *txid),
    {
        self.verified.contains(txid)
    }

    /// Removes the transactions with one of the given identifiers from the
    /// mempool: those with the same effects, signatures and proofs.  The
    /// other transactions keep their order, and the remembered rejections stay.
    /// Returns the number of transactions that were removed.
    pub fn remove_exact(&mut self, exact_wtxids: &Vec<UnminedTxId>) -> (removed: usize)
        requires
            old(self).wf(),
        ensures
            final(self).wf(),
            final(self)@.verified == Removal::Exact(exact_wtxids).remaining(old(self)@.verified),
            final(self)@.rejected == old(self)@.rejected,
            removed == old(self)@.verified.len() - final(self)@.verified.len(),
    {
        self.verified.remove_all_that(&Removal::Exact(exact_wtxids))
    }

    /// Removes the transactions that are mined under one of the given
    /// identifiers from the mempool: those with the same effects, whatever
    /// their signatures and proofs are.  The other transactions keep their
    /// order, and the remembered rejections stay.  Returns the number of
    /// transactions that were removed.
    pub fn remove_same_effects(&mut self, mined_ids: &Vec<transaction::Hash>) -> (removed: usize)
        requires
            old(self).wf(),
        ensures
            final(self).wf(),
            final(self)@.verified == Removal::SameEffects(mined_ids).remaining(old(self)@.verified),
            final(self)@.rejected == old(self)@.rejected,
            removed == old(self)@.verified.len() - final(self)@.verified.len(),
    {
        self.verified.remove_all_that(&Removal::SameEffects(mined_ids))
    }

    /// The identifiers of the transactions in the mempool, first inserted first.
    pub fn tx_ids(&self) -> (ids: Vec<UnminedTxId>)
        ensures
            ids@ == self@.verified.map_values(|tx: UnminedTx| tx.id),
    {
        let txs = self.verified.transactions();
        let mut ids: Vec<UnminedTxId> = Vec::new();
        let mut i: usize = 0;
        while i < txs.len()
            invariant
                i <= txs.len(),
                ids@ == txs@.take(i as int).map_values(|tx: UnminedTx| tx.id),
            decreases txs.len() - i,
        {
            ids.push(txs[i].id);
            proof {
                assert(txs@.take(i + 1).map_values(|tx: UnminedTx| tx.id) =~= txs@.take(i as int).map_values(
                    |tx: UnminedTx| tx.id,
                ).push(txs@[i as int].id));
            }
            i += 1;
        }
        proof {
            assert(txs@.take(txs@.len() as int) =~= txs@);
        }
        ids
    }

    /// The transactions in the mempool that have one of the identifiers
    /// `tx_ids`, first inserted first.
    pub fn transactions(&self, tx_ids: Vec<UnminedTxId>) -> (found: Vec<UnminedTx>)
        ensures
            found@ == self@.verified.filter(|tx: UnminedTx| tx_ids@.contains(tx.id)),
    {
        let txs = self.verified.transactions();
        let wanted = Removal::Exact(&tx_ids);
        let ghost named = |tx: UnminedTx| tx_ids@.contains(tx.id);
        let mut found: Vec<UnminedTx> = Vec::new();
        let mut i: usize = 0;
        while i < txs.len()
            invariant
                i <= txs.len(),
                wanted == Removal::Exact(&tx_ids),
                named == (|tx: UnminedTx| tx_ids@.contains(tx.id)),
                found@ == txs@.take(i as int).filter(named),
            decreases txs.len() - i,
        {
            proof {
                let next = txs@.take(i + 1);
                assert(next.drop_last() =~= txs@.take(i as int));
                assert(next.last() == txs@[i as int]);
                reveal_with_fuel(Seq::filter, 2);
            }
            if wanted.takes(&txs[i]) {
                found.push(txs[i].clone());
            }
            i += 1;
        }
        proof {
            assert(txs@.take(txs@.len() as int) =~= txs@);
        }
        found
    }

    /// The transactions in the mempool, first inserted first.
    pub fn transactions_all(&self) -> (all: Vec<UnminedTx>)
        ensures
            all@ == self@.verified,
    {
        let txs = self.verified.transactions();
        let mut all: Vec<UnminedTx> = Vec::new();
        let mut i: usize = 0;
        while i < txs.len()
            invariant
                i <= txs.len(),
                all@ == txs@.take(i as int),
            decreases txs.len() - i,
        {
            all.push(txs[i].clone());
            proof {
                assert(txs@.take(i + 1) =~= txs@.take(i as int).push(txs@[i as int]));
            }
            i += 1;
        }
        proof {
            assert(txs@.take(txs@.len() as int) =~= txs@);
        }
        all
    }

    /// Whether the rejection of the transaction with the identifier `txid` is remembered.
    pub fn contains_rejected(&self, txid: &UnminedTxId) -> (found: bool)
        ensures
            found == rejection_of(self@.rejected, *txid).is_some(),
    {
        self.rejection_error(txid).is_some()
    }

    /// The reason for which the transaction with the identifier `txid` was
    /// rejected, if its rejection is remembered.
    pub fn rejection_error(&self, txid: &UnminedTxId) -> (reason: Option<StorageRejectionError>)
        ensures
            reason == rejection_of(self@.rejected, *txid),
    {
        let mut i: usize = self.rejected.len();
        proof {
            assert(self.rejected@.take(i as int) =~= self.rejected@);
        }
        while i > 0
            invariant
                i <= self.rejected.len(),
                rejection_of(self.rejected@, *txid) == rejection_of(self.rejected@.take(i as int), *txid),
            decreases i,
        {
            proof {
                let upto = self.rejected@.take(i as int);
                assert(upto.last() == self.rejected@[i - 1]);
                assert(upto.drop_last() =~= self.rejected@.take(i - 1));
            }
            i -= 1;
            if self.rejected[i].0 == *txid {
                return Some(self.rejected[i].1);
            }
        }
        None
    }

    /// Those of `tx_ids` whose rejection is remembered, in the order of `tx_ids`.
    pub fn rejected_transactions(&self, tx_ids: Vec<UnminedTxId>) -> (rejected: Vec<UnminedTxId>)
        ensures
            rejected@ == tx_ids@.filter(|id: UnminedTxId| rejection_of(self@.rejected, id).is_some()),
    {
        let ghost remembered = |id: UnminedTxId| rejection_of(self@.rejected, id).is_some();
        let mut rejected: Vec<UnminedTxId> = Vec::new();
        let mut i: usize = 0;
        while i < tx_ids.len()
            invariant
                i <= tx_ids.len(),
                remembered == (|id: UnminedTxId| rejection_of(self@.rejected, id).is_some()),
                rejected@ == tx_ids@.take(i as int).filter(remembered),
            decreases tx_ids.len() - i,
        {
            proof {
                let next = tx_ids@.take(i + 1);
                assert(next.drop_last() =~= tx_ids@.take(i as int));
                assert(next.last() == tx_ids@[i as int]);
                reveal_with_fuel(Seq::filter, 2);
            }
            if self.contains_rejected(&tx_ids[i]) {
                rejected.push(tx_ids[i]);
            }
            i += 1;
        }
        proof {
            assert(tx_ids@.take(tx_ids@.len() as int) =~= tx_ids@);
        }
        rejected
    }

    /// Empties the mempool: the verified transactions leave, and the
    /// rejections are forgotten.
    pub fn clear(&mut self)
        ensures
            final(self).wf(),
            final(self)@.verified == Seq::<UnminedTx>::empty(),
            final(self)@.rejected == Seq::<Rejection>::empty(),
    {
        self.verified.clear();
        self.rejected.clear();
    }
}

} // verus!
