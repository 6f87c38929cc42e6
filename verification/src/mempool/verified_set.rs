//! The verified transactions of the mempool, with an index of what they spend.

use vstd::prelude::*;

use crate::chain::orchard;
use crate::chain::sapling;
use crate::chain::sprout;
use crate::chain::transaction;
use crate::chain::transaction::{Transaction, UnminedTx, UnminedTxId};
use crate::chain::transparent;

verus! {

/// The number of verified transactions that the mempool holds at most.
pub const MEMPOOL_CAPACITY: usize = 2;

/// The lowest cost that a transaction has when a victim is drawn for eviction.
pub const EVICTION_COST_FLOOR: usize = 4000;

/// Something that a transaction spends and that may be spent once only: a
/// transparent output, or the note behind a nullifier.
pub trait SpendKey: Copy + Sized {
    /// Whether the two keys name the same thing.
    fn same(&self, other: &Self) -> (same: bool)
        ensures
            same == (*self == *other),
    ;
}

impl SpendKey for transparent::OutPoint {
    fn same(&self, other: &Self) -> (same: bool) {
        *self == *other
    }
}

impl SpendKey for sprout::Nullifier {
    fn same(&self, other: &Self) -> (same: bool) {
        *self == *other
    }
}

impl SpendKey for sapling::Nullifier {
    fn same(&self, other: &Self) -> (same: bool) {
        *self == *other
    }
}

impl SpendKey for orchard::Nullifier {
    fn same(&self, other: &Self) -> (same: bool) {
        *self == *other
    }
}

/// Whether some key occurs in both sequences.
pub open spec fn intersects<K>(a: Seq<K>, b: Seq<K>) -> bool {
    exists|i: int, j: int|
        #![trigger a[i], b[j]]
        0 <= i < a.len() && 0 <= j < b.len() && a[i] == b[j]
}

/// The transparent outputs that the transactions spend, transaction by transaction.
pub open spec fn outpoints_spent_by(txs: Seq<UnminedTx>) -> Seq<transparent::OutPoint>
    decreases txs.len(),
{
    if txs.len() == 0 {
        Seq::empty()
    } else {
        outpoints_spent_by(txs.drop_last()) + txs.last().transaction.spec_spent_outpoints()
    }
}

/// The Sprout nullifiers that the transactions reveal, transaction by transaction.
pub open spec fn sprout_nullifiers_of(txs: Seq<UnminedTx>) -> Seq<sprout::Nullifier>
    decreases txs.len(),
{
    if txs.len() == 0 {
        Seq::empty()
    } else {
        sprout_nullifiers_of(txs.drop_last()) + txs.last().transaction.spec_sprout_nullifiers()
    }
}

/// The Sapling nullifiers that the transactions reveal, transaction by transaction.
pub open spec fn sapling_nullifiers_of(txs: Seq<UnminedTx>) -> Seq<sapling::Nullifier>
    decreases txs.len(),
{
    if txs.len() == 0 {
        Seq::empty()
    } else {
        sapling_nullifiers_of(txs.drop_last()) + txs.last().transaction.spec_sapling_nullifiers()
    }
}

/// The Orchard nullifiers that the transactions reveal, transaction by transaction.
pub open spec fn orchard_nullifiers_of(txs: Seq<UnminedTx>) -> Seq<orchard::Nullifier>
    decreases txs.len(),
{
    if txs.len() == 0 {
        Seq::empty()
    } else {
        orchard_nullifiers_of(txs.drop_last()) + txs.last().transaction.spec_orchard_nullifiers()
    }
}

/// Whether `tx` spends something that one of `verified` spends too: a
/// transparent output, or a note of one of the three shielded pools.
pub open spec fn spend_conflict(verified: Seq<UnminedTx>, tx: &Transaction) -> bool {
    ||| intersects(outpoints_spent_by(verified), tx.spec_spent_outpoints())
    ||| intersects(sprout_nullifiers_of(verified), tx.spec_sprout_nullifiers())
    ||| intersects(sapling_nullifiers_of(verified), tx.spec_sapling_nullifiers())
    ||| intersects(orchard_nullifiers_of(verified), tx.spec_orchard_nullifiers())
}

/// Whether one of `txs` has the identifier `id`.
pub open spec fn holds_id(txs: Seq<UnminedTx>, id: UnminedTxId) -> bool {
    exists|i: int| 0 <= i < txs.len() && (#[trigger] txs[i]).id == id
}

/// Whether no two of `txs` have the same identifier.
pub open spec fn distinct_ids(txs: Seq<UnminedTx>) -> bool {
    forall|i: int, j: int| 0 <= i < j < txs.len() ==> (#[trigger] txs[i]).id != (#[trigger] txs[j]).id
}

/// The cost of a transaction when a victim is drawn: its size, but
/// `EVICTION_COST_FLOOR` at least.
pub open spec fn eviction_cost(tx: UnminedTx) -> int {
    if tx.size < EVICTION_COST_FLOOR {
        EVICTION_COST_FLOOR as int
    } else {
        tx.size as int
    }
}

/// The lowest fee that one of `txs` pays.
pub open spec fn lowest_fee(txs: Seq<UnminedTx>) -> int
    decreases txs.len(),
{
    if txs.len() == 0 {
        u64::MAX as int
    } else {
        let before = lowest_fee(txs.drop_last());
        if txs.last().miner_fee < before {
            txs.last().miner_fee as int
        } else {
            before
        }
    }
}

/// The weight with which `tx` is drawn as the victim: its cost if it pays the
/// lowest fee, else nothing.
pub open spec fn eviction_weight(tx: UnminedTx, lowest: int) -> int {
    if tx.miner_fee == lowest {
        eviction_cost(tx)
    } else {
        0
    }
}

/// The weights of the first `n` of `txs`, added up.
pub open spec fn weight_before(txs: Seq<UnminedTx>, lowest: int, n: int) -> int
    decreases n,
{
    if n <= 0 {
        0
    } else {
        weight_before(txs, lowest, n - 1) + eviction_weight(txs[n - 1], lowest)
    }
}

/// The weights of all of `txs`, added up.
pub open spec fn total_weight(txs: Seq<UnminedTx>) -> int {
    weight_before(txs, lowest_fee(txs), txs.len() as int)
}

/// The first position at or behind `from` whose transaction covers `point`,
/// where the transactions lie side by side in insertion order, each as wide
/// as its weight.
pub open spec fn covering_from(txs: Seq<UnminedTx>, lowest: int, point: int, from: int) -> int
    decreases txs.len() - from,
{
    if from >= txs.len() {
        from
    } else if weight_before(txs, lowest, from + 1) > point {
        from
    } else {
        covering_from(txs, lowest, point, from + 1)
    }
}

/// The position of the transaction that leaves when the mempool is full and
/// `draw` was drawn.
///
/// The victim is one of the transactions that pay the lowest fee.  Among them
/// the draw decides, each weighted by its cost; the transactions are laid out
/// in insertion order.
pub open spec fn eviction_victim(txs: Seq<UnminedTx>, draw: u128) -> int {
    covering_from(txs, lowest_fee(txs), (draw as int) % total_weight(txs), 0)
}

/// `txs` after `tx` joins: while there is room `tx` goes to the end; in a
/// full mempool the victim of `draw` leaves first.
pub open spec fn with_inserted(txs: Seq<UnminedTx>, tx: UnminedTx, draw: u128) -> Seq<UnminedTx> {
    if txs.len() < MEMPOOL_CAPACITY {
        txs.push(tx)
    } else {
        txs.remove(eviction_victim(txs, draw)).push(tx)
    }
}

/// The transaction that leaves when `tx` joins `txs`, if one has to.
pub open spec fn evicted_by_insert(txs: Seq<UnminedTx>, draw: u128) -> Option<UnminedTx> {
    if txs.len() < MEMPOOL_CAPACITY {
        None
    } else {
        Some(txs[eviction_victim(txs, draw)])
    }
}

/// The lowest fee is paid by one of the transactions, and none pays less.
pub proof fn lemma_lowest_fee(txs: Seq<UnminedTx>)
    requires
        txs.len() > 0,
    ensures
        exists|i: int| 0 <= i < txs.len() && (#[trigger] txs[i]).miner_fee == lowest_fee(txs),
        forall|i: int| 0 <= i < txs.len() ==> lowest_fee(txs) <= (#[trigger] txs[i]).miner_fee,
    decreases txs.len(),
{
    let before = txs.drop_last();
    let last = txs.len() - 1;
    if before.len() == 0 {
        assert(txs[last].miner_fee == lowest_fee(txs));
    } else {
        lemma_lowest_fee(before);
        let k = choose|i: int| 0 <= i < before.len() && (#[trigger] before[i]).miner_fee == lowest_fee(before);
        if txs.last().miner_fee < lowest_fee(before) {
            assert(txs[last].miner_fee == lowest_fee(txs));
        } else {
            assert(txs[k] == before[k]);
            assert(txs[k].miner_fee == lowest_fee(txs));
        }
        assert forall|i: int| 0 <= i < txs.len() implies lowest_fee(txs) <= (#[trigger] txs[i]).miner_fee by {
            if i < last {
                assert(txs[i] == before[i]);
            }
        }
    }
}

/// The added weights grow with the number of transactions, by at most the
/// largest size each, and pass the floor once a transaction of the lowest fee
/// is among them.
pub proof fn lemma_weight_before(txs: Seq<UnminedTx>, lowest: int, n: int)
    requires
        0 <= n <= txs.len(),
    ensures
        0 <= weight_before(txs, lowest, n) <= n * (usize::MAX as int),
        forall|i: int| 0 <= i < n && (#[trigger] txs[i]).miner_fee == lowest ==> weight_before(txs, lowest, n) > 0,
        forall|m: int| 0 <= m <= n ==> #[trigger] weight_before(txs, lowest, m) <= weight_before(txs, lowest, n),
    decreases n,
{
    if n > 0 {
        lemma_weight_before(txs, lowest, n - 1);
        assert((n - 1) * (usize::MAX as int) + (usize::MAX as int) == n * (usize::MAX as int)) by (nonlinear_arith);
    }
}

/// A full draw has something to choose from, and its victim is one of the transactions.
pub proof fn lemma_eviction_victim(txs: Seq<UnminedTx>, draw: u128)
    requires
        txs.len() > 0,
    ensures
        total_weight(txs) > 0,
        0 <= eviction_victim(txs, draw) < txs.len(),
        txs[eviction_victim(txs, draw)].miner_fee == lowest_fee(txs),
{
    let lowest = lowest_fee(txs);
    lemma_lowest_fee(txs);
    lemma_weight_before(txs, lowest, txs.len() as int);
    let point = (draw as int) % total_weight(txs);
    lemma_covering_from(txs, lowest, point, 0);
}

proof fn lemma_covering_from(txs: Seq<UnminedTx>, lowest: int, point: int, from: int)
    requires
        0 <= from < txs.len(),
        weight_before(txs, lowest, from) <= point < weight_before(txs, lowest, txs.len() as int),
    ensures
        from <= covering_from(txs, lowest, point, from) < txs.len(),
        txs[covering_from(txs, lowest, point, from)].miner_fee == lowest,
    decreases txs.len() - from,
{
    if weight_before(txs, lowest, from + 1) > point {
    } else {
        if from + 1 >= txs.len() {
            assert(false);
        }
        lemma_covering_from(txs, lowest, point, from + 1);
    }
}

/// Whether `key` is among `keys`.
pub fn holds_key<K: SpendKey>(keys: &Vec<K>, key: &K) -> (found: bool)
    ensures
        found == keys@.contains(*key),
{
    let mut i: usize = 0;
    while i < keys.len()
        invariant
            i <= keys.len(),
            forall|j: int| 0 <= j < i ==> keys@[j] != *key,
        decreases keys.len() - i,
    {
        if keys[i].same(key) {
            return true;
        }
        i += 1;
    }
    false
}

/// Whether some key is in both `index` and `keys`.
pub fn share_key<K: SpendKey>(index: &Vec<K>, keys: &Vec<K>) -> (shared: bool)
    ensures
        shared == intersects(index@, keys@),
{
    let mut j: usize = 0;
    while j < keys.len()
        invariant
            j <= keys.len(),
            forall|i: int, k: int|
                #![trigger index@[i], keys@[k]]
                0 <= i < index@.len() && 0 <= k < j ==> index@[i] != keys@[k],
        decreases keys.len() - j,
    {
        if holds_key(index, &keys[j]) {
            proof {
                let i = choose|i: int| 0 <= i < index@.len() && index@[i] == keys@[j as int];
                assert(index@[i] == keys@[j as int]);
            }
            return true;
        }
        j += 1;
    }
    false
}

/// Adds `keys` to the end of `index`.
pub fn add_keys<K: SpendKey>(index: &mut Vec<K>, keys: &Vec<K>)
    ensures
        final(index)@ == old(index)@ + keys@,
{
    let mut i: usize = 0;
    while i < keys.len()
        invariant
            i <= keys.len(),
            index@ == old(index)@ + keys@.take(i as int),
        decreases keys.len() - i,
    {
        index.push(keys[i]);
        proof {
            assert(old(index)@ + keys@.take(i + 1) =~= (old(index)@ + keys@.take(i as int)).push(keys@[i as int]));
        }
        i += 1;
    }
    proof {
        assert(keys@.take(keys@.len() as int) =~= keys@);
    }
}

/// Which transactions a removal takes out of the mempool.
pub enum Removal<'a> {
    /// The transactions with one of these identifiers: the same effects, the
    /// same signatures and the same proofs.
    Exact(&'a Vec<UnminedTxId>),
    /// The transactions that are mined under one of these identifiers: the
    /// same effects, whatever their signatures and proofs are.
    SameEffects(&'a Vec<transaction::Hash>),
}

impl<'a> Removal<'a> {
    /// Whether the removal takes `tx` out.
    pub open spec fn removes(self, tx: UnminedTx) -> bool {
        match self {
            Removal::Exact(ids) => ids@.contains(tx.id),
            Removal::SameEffects(mined_ids) => mined_ids@.contains(tx.id.spec_mined_id()),
        }
    }

    /// The transactions of `txs` that stay.
    pub open spec fn remaining(self, txs: Seq<UnminedTx>) -> Seq<UnminedTx> {
        txs.filter(|tx: UnminedTx| !self.removes(tx))
    }

    /// Whether the removal takes `tx` out.
    pub fn takes(&self, tx: &UnminedTx) -> (taken: bool)
        ensures
            taken == self.removes(*tx),
    {
        match self {
            Removal::Exact(ids) => {
                let mut i: usize = 0;
                while i < ids.len()
                    invariant
                        i <= ids.len(),
                        self.removes(*tx) == ids@.contains(tx.id),
                        forall|j: int| 0 <= j < i ==> ids@[j] != tx.id,
                    decreases ids.len() - i,
                {
                    if ids[i] == tx.id {
                        assert(ids@[i as int] == tx.id);
                        return true;
                    }
                    i += 1;
                }
                false
            },
            Removal::SameEffects(mined_ids) => {
                let mined_id = tx.id.mined_id();
                let mut i: usize = 0;
                while i < mined_ids.len()
                    invariant
                        i <= mined_ids.len(),
                        mined_id == tx.id.spec_mined_id(),
                        self.removes(*tx) == mined_ids@.contains(mined_id),
                        forall|j: int| 0 <= j < i ==> mined_ids@[j] != mined_id,
                    decreases mined_ids.len() - i,
                {
                    if mined_ids[i] == mined_id {
                        assert(mined_ids@[i as int] == tx.id.spec_mined_id());
                        return true;
                    }
                    i += 1;
                }
                false
            },
        }
    }
}

/// Taking transactions out leaves the others with identifiers that differ.
pub proof fn lemma_filter_distinct_ids(txs: Seq<UnminedTx>, keep: spec_fn(UnminedTx) -> bool)
    requires
        distinct_ids(txs),
    ensures
        distinct_ids(txs.filter(keep)),
        txs.filter(keep).len() <= txs.len(),
    decreases txs.len(),
{
    reveal(Seq::filter);
    if txs.len() > 0 {
        let before = txs.drop_last();
        assert forall|i: int, j: int| 0 <= i < j < before.len() implies (#[trigger] before[i]).id != (
        #[trigger] before[j]).id by {
            assert(before[i] == txs[i] && before[j] == txs[j]);
        }
        lemma_filter_distinct_ids(before, keep);
        let kept = before.filter(keep);
        if keep(txs.last()) {
            let all = kept.push(txs.last());
            assert forall|i: int, j: int| 0 <= i < j < all.len() implies (#[trigger] all[i]).id != (
            #[trigger] all[j]).id by {
                if j == kept.len() {
                    assert(kept.contains(kept[i]));
                    before.lemma_filter_contains_rev(keep, kept[i]);
                    let m = choose|m: int| 0 <= m < before.len() && before[m] == kept[i];
                    assert(txs[m] == kept[i]);
                    assert(txs[m].id != txs[txs.len() - 1].id);
                } else {
                    assert(all[i] == kept[i] && all[j] == kept[j]);
                }
            }
        }
    }
}

/// Inserting a transaction with a new identifier leaves the identifiers different.
pub proof fn lemma_inserted_distinct_ids(txs: Seq<UnminedTx>, tx: UnminedTx, draw: u128)
    requires
        distinct_ids(txs),
        !holds_id(txs, tx.id),
        txs.len() <= MEMPOOL_CAPACITY,
    ensures
        distinct_ids(with_inserted(txs, tx, draw)),
        with_inserted(txs, tx, draw).len() <= MEMPOOL_CAPACITY,
        with_inserted(txs, tx, draw).len() > 0,
        with_inserted(txs, tx, draw).last() == tx,
{
    let rest = if txs.len() < MEMPOOL_CAPACITY {
        txs
    } else {
        lemma_eviction_victim(txs, draw);
        txs.remove(eviction_victim(txs, draw))
    };
    let all = rest.push(tx);
    assert forall|i: int, j: int| 0 <= i < j < all.len() implies (#[trigger] all[i]).id != (#[trigger] all[j]).id by {
        let v = eviction_victim(txs, draw);
        let a = if txs.len() < MEMPOOL_CAPACITY || i < v { i } else { i + 1 };
        let b = if txs.len() < MEMPOOL_CAPACITY || j < v { j } else { j + 1 };
        assert(all[i] == txs[a]);
        if j == rest.len() {
            assert(txs[a].id != tx.id);
        } else {
            assert(all[j] == txs[b]);
        }
    }
}

/// The verified transactions of the mempool in the order in which they were
/// inserted, and for each kind of spend the things that they spend.
pub struct VerifiedSet {
    transactions: Vec<UnminedTx>,
    spent_outpoints: Vec<transparent::OutPoint>,
    sprout_nullifiers: Vec<sprout::Nullifier>,
    sapling_nullifiers: Vec<sapling::Nullifier>,
    orchard_nullifiers: Vec<orchard::Nullifier>,
}

impl View for VerifiedSet {
    type V = Seq<UnminedTx>;

    closed spec fn view(&self) -> Seq<UnminedTx> {
        self.transactions@
    }
}

impl VerifiedSet {
    /// The set holds at most `MEMPOOL_CAPACITY` transactions, no two of them
    /// with the same identifier, and the four indexes hold what the
    /// transactions spend.
    pub closed spec fn wf(&self) -> bool {
        &&& self.transactions@.len() <= MEMPOOL_CAPACITY
        &&& distinct_ids(self.transactions@)
        &&& self.spent_outpoints@ == outpoints_spent_by(self.transactions@)
        &&& self.sprout_nullifiers@ == sprout_nullifiers_of(self.transactions@)
        &&& self.sapling_nullifiers@ == sapling_nullifiers_of(self.transactions@)
        &&& self.orchard_nullifiers@ == orchard_nullifiers_of(self.transactions@)
    }

    /// What a well-formed set promises of its transactions.
    pub proof fn lemma_wf(&self)
        requires
            self.wf(),
        ensures
            self@.len() <= MEMPOOL_CAPACITY,
            distinct_ids(self@),
    {
    }

    /// A set without transactions.
    pub fn new() -> (set: Self)
        ensures
            set.wf(),
            set@ == Seq::<UnminedTx>::empty(),
    {
        VerifiedSet {
            transactions: Vec::new(),
            spent_outpoints: Vec::new(),
            sprout_nullifiers: Vec::new(),
            sapling_nullifiers: Vec::new(),
            orchard_nullifiers: Vec::new(),
        }
    }

    /// The number of transactions.
    pub fn len(&self) -> (len: usize)
        ensures
            len == self@.len(),
    {
        self.transactions.len()
    }

    /// The transactions, first inserted first.
    pub fn transactions(&self) -> (txs: &Vec<UnminedTx>)
        ensures
            txs@ == self@,
    {
        &self.transactions
    }

    /// Whether the set holds a transaction with the identifier `id`.
    pub fn contains(&self, id: &UnminedTxId) -> (found: bool)
        ensures
            found == holds_id(self@, *id),
    {
        let mut i: usize = 0;
        while i < self.transactions.len()
            invariant
                i <= self.transactions.len(),
                forall|j: int| 0 <= j < i ==> (#[trigger] self.transactions@[j]).id != *id,
            decreases self.transactions.len() - i,
        {
            if self.transactions[i].id == *id {
                return true;
            }
            i += 1;
        }
        false
    }

    /// Whether `tx` spends something that a transaction of the set spends too.
    pub fn has_spend_conflicts(&self, tx: &UnminedTx) -> (conflict: bool)
        requires
            self.wf(),
        ensures
            conflict == spend_conflict(self@, &tx.transaction),
    {
        share_key(&self.spent_outpoints, &tx.transaction.spent_outpoints())
            || share_key(&self.sprout_nullifiers, &tx.transaction.sprout_nullifiers())
            || share_key(&self.sapling_nullifiers, &tx.transaction.sapling_nullifiers())
            || share_key(&self.orchard_nullifiers, &tx.transaction.orchard_nullifiers())
    }

    /// Removes every transaction.
    pub fn clear(&mut self)
        ensures
            final(self).wf(),
            final(self)@ == Seq::<UnminedTx>::empty(),
    {
        self.transactions.clear();
        self.spent_outpoints.clear();
        self.sprout_nullifiers.clear();
        self.sapling_nullifiers.clear();
        self.orchard_nullifiers.clear();
    }

    /// Sets the four indexes to what the transactions spend.
    fn rebuild_indexes(&mut self)
        ensures
            final(self).transactions@ == old(self).transactions@,
            final(self).spent_outpoints@ == outpoints_spent_by(final(self).transactions@),
            final(self).sprout_nullifiers@ == sprout_nullifiers_of(final(self).transactions@),
            final(self).sapling_nullifiers@ == sapling_nullifiers_of(final(self).transactions@),
            final(self).orchard_nullifiers@ == orchard_nullifiers_of(final(self).transactions@),
    {
        self.spent_outpoints.clear();
        self.sprout_nullifiers.clear();
        self.sapling_nullifiers.clear();
        self.orchard_nullifiers.clear();
        let mut i: usize = 0;
        while i < self.transactions.len()
            invariant
                i <= self.transactions.len(),
                self.transactions@ == old(self).transactions@,
                self.spent_outpoints@ == outpoints_spent_by(self.transactions@.take(i as int)),
                self.sprout_nullifiers@ == sprout_nullifiers_of(self.transactions@.take(i as int)),
                self.sapling_nullifiers@ == sapling_nullifiers_of(self.transactions@.take(i as int)),
                self.orchard_nullifiers@ == orchard_nullifiers_of(self.transactions@.take(i as int)),
            decreases self.transactions.len() - i,
        {
            proof {
                let next = self.transactions@.take(i + 1);
                assert(next.drop_last() =~= self.transactions@.take(i as int));
                assert(next.last() == self.transactions@[i as int]);
            }
            let spent = self.transactions[i].transaction.spent_outpoints();
            let sprout = self.transactions[i].transaction.sprout_nullifiers();
            let sapling = self.transactions[i].transaction.sapling_nullifiers();
            let orchard = self.transactions[i].transaction.orchard_nullifiers();
            add_keys(&mut self.spent_outpoints, &spent);
            add_keys(&mut self.sprout_nullifiers, &sprout);
            add_keys(&mut self.sapling_nullifiers, &sapling);
            add_keys(&mut self.orchard_nullifiers, &orchard);
            i += 1;
        }
        proof {
            assert(self.transactions@.take(self.transactions@.len() as int) =~= self.transactions@);
        }
    }

    /// Inserts `tx` behind the transactions of the set.  From a full set the
    /// victim of `draw` leaves first; the call returns it.
    pub fn insert(&mut self, tx: UnminedTx, draw: u128) -> (evicted: Option<UnminedTx>)
        requires
            old(self).wf(),
            !holds_id(old(self)@, tx.id),
        ensures
            final(self).wf(),
            final(self)@ == with_inserted(old(self)@, tx, draw),
            evicted == evicted_by_insert(old(self)@, draw),
    {
        proof {
            lemma_inserted_distinct_ids(self@, tx, draw);
        }
        let mut evicted: Option<UnminedTx> = None;
        if self.transactions.len() >= MEMPOOL_CAPACITY {
            let position = self.evict_position(draw);
            evicted = Some(self.transactions.remove(position));
        }
        self.transactions.push(tx);
        self.rebuild_indexes();
        evicted
    }

    /// Removes the transactions that `removal` names; the others keep their
    /// order.  Returns the number of transactions that were removed.
    pub fn remove_all_that(&mut self, removal: &Removal) -> (removed: usize)
        requires
            old(self).wf(),
        ensures
            final(self).wf(),
            final(self)@ == removal.remaining(old(self)@),
            removed == old(self)@.len() - final(self)@.len(),
    {
        let ghost keep = |tx: UnminedTx| !removal.removes(tx);
        let mut kept: Vec<UnminedTx> = Vec::new();
        let mut i: usize = 0;
        while i < self.transactions.len()
            invariant
                i <= self.transactions.len(),
                self.transactions@ == old(self).transactions@,
                keep == (|tx: UnminedTx| !removal.removes(tx)),
                kept@ == self.transactions@.take(i as int).filter(keep),
            decreases self.transactions.len() - i,
        {
            proof {
                let next = self.transactions@.take(i + 1);
                assert(next.drop_last() =~= self.transactions@.take(i as int));
                assert(next.last() == self.transactions@[i as int]);
                reveal_with_fuel(Seq::filter, 2);
            }
            if !removal.takes(&self.transactions[i]) {
                kept.push(self.transactions[i].clone());
            }
            i += 1;
        }
        proof {
            assert(self.transactions@.take(self.transactions@.len() as int) =~= self.transactions@);
            lemma_filter_distinct_ids(self.transactions@, keep);
        }
        let removed = self.transactions.len() - kept.len();
        self.transactions = kept;
        self.rebuild_indexes();
        removed
    }

    /// The position of the transaction that leaves a full set when `draw` was drawn.
    fn evict_position(&self, draw: u128) -> (position: usize)
        requires
            self.wf(),
            self@.len() > 0,
        ensures
            position == eviction_victim(self@, draw),
            position < self@.len(),
    {
        let n = self.transactions.len();
        let ghost txs = self.transactions@;
        let mut lowest: u64 = u64::MAX;
        let mut i: usize = 0;
        while i < n
            invariant
                i <= n,
                n == self.transactions@.len(),
                lowest == lowest_fee(self.transactions@.take(i as int)),
            decreases n - i,
        {
            proof {
                let next = self.transactions@.take(i + 1);
                assert(next.drop_last() =~= self.transactions@.take(i as int));
                assert(next.last() == self.transactions@[i as int]);
            }
            if self.transactions[i].miner_fee < lowest {
                lowest = self.transactions[i].miner_fee;
            }
            i += 1;
        }
        proof {
            assert(txs.take(n as int) =~= txs);
            lemma_eviction_victim(txs, draw);
            lemma_weight_before(txs, lowest as int, n as int);
        }
        let mut total: u128 = 0;
        let mut k: usize = 0;
        while k < n
            invariant
                k <= n,
                n == self.transactions@.len(),
                n <= MEMPOOL_CAPACITY,
                total == weight_before(self.transactions@, lowest as int, k as int),
                total <= k * (usize::MAX as int),
            decreases n - k,
        {
            proof {
                lemma_weight_before(self.transactions@, lowest as int, k + 1);
            }
            if self.transactions[k].miner_fee == lowest {
                let size = self.transactions[k].size;
                let cost: usize = if size < EVICTION_COST_FLOOR {
                    EVICTION_COST_FLOOR
                } else {
                    size
                };
                total = total + cost as u128;
            }
            k += 1;
        }
        let point: u128 = draw % total;
        let mut position: usize = 0;
        let mut before: u128 = 0;
        proof {
            lemma_covering_from(txs, lowest as int, point as int, 0);
        }
        loop
            invariant
                0 <= position < n,
                n == self.transactions@.len(),
                n <= MEMPOOL_CAPACITY,
                txs == self.transactions@,
                lowest == lowest_fee(txs),
                point == (draw as int) % total_weight(txs),
                point < weight_before(txs, lowest as int, n as int),
                before == weight_before(txs, lowest as int, position as int),
                before <= point,
                covering_from(txs, lowest as int, point as int, 0) == covering_from(
                    txs,
                    lowest as int,
                    point as int,
                    position as int,
                ),
            decreases n - position,
        {
            proof {
                lemma_weight_before(txs, lowest as int, position + 1);
                lemma_covering_from(txs, lowest as int, point as int, position as int);
                assert((position + 1) * (usize::MAX as int) <= 2 * (usize::MAX as int)) by (nonlinear_arith)
                    requires
                        0 <= position + 1 <= 2,
                ;
            }
            let mut upto: u128 = before;
            if self.transactions[position].miner_fee == lowest {
                let size = self.transactions[position].size;
                let cost: usize = if size < EVICTION_COST_FLOOR {
                    EVICTION_COST_FLOOR
                } else {
                    size
                };
                upto = before + cost as u128;
            }
            if upto > point {
                return position;
            }
            before = upto;
            position += 1;
        }
    }
}

} // verus!
