//! The set of block hashes queued for download, in the order in which they were first seen.

use indexmap::IndexSet;
use std::collections::hash_map::RandomState;
use vstd::prelude::*;

use crate::chain::block;

verus! {

#[verifier::external_type_specification]
#[verifier::external_body]
#[verifier::reject_recursive_types(T)]
#[verifier::reject_recursive_types(S)]
pub struct ExIndexSet<T, S>(IndexSet<T, S>);

/// The items of an insertion-ordered set of word pairs, first inserted first.
pub uninterp spec fn ordered_items(set: IndexSet<(u128, u128), RandomState>) -> Seq<(u128, u128)>;

/// `IndexSet::new`: a set that holds nothing.
#[verifier::external_body]
fn index_set_new() -> (set: IndexSet<(u128, u128), RandomState>)
    ensures
        ordered_items(set) == Seq::<(u128, u128)>::empty(),
{
    IndexSet::new()
}

/// `IndexSet::len`: the number of items in the set.
#[verifier::external_body]
fn index_set_len(set: &IndexSet<(u128, u128), RandomState>) -> (len: usize)
    ensures
        len == ordered_items(*set).len(),
{
    set.len()
}

/// `IndexSet::contains`: whether an item equal to `item` is in the set.
#[verifier::external_body]
fn index_set_contains(set: &IndexSet<(u128, u128), RandomState>, item: &(u128, u128)) -> (found: bool)
    ensures
        found == ordered_items(*set).contains(*item),
{
    set.contains(item)
}

/// `IndexSet::insert`: where an equal item is in the set already, the set stays
/// as it is, order included, and the call returns `false`; otherwise the item
/// goes to the end of the order and the call returns `true`.
#[verifier::external_body]
fn index_set_insert(set: &mut IndexSet<(u128, u128), RandomState>, item: (u128, u128)) -> (fresh: bool)
    ensures
        fresh == !ordered_items(*old(set)).contains(item),
        fresh ==> ordered_items(*final(set)) == ordered_items(*old(set)).push(item),
        !fresh ==> ordered_items(*final(set)) == ordered_items(*old(set)),
{
    set.insert(item)
}

/// `IndexSet::get_index`: the item at a position of the order, if the position is below the length.
#[verifier::external_body]
fn index_set_get_index(set: &IndexSet<(u128, u128), RandomState>, index: usize) -> (item: Option<(u128, u128)>)
    ensures
        index < ordered_items(*set).len() ==> item == Some(ordered_items(*set)[index as int]),
        index >= ordered_items(*set).len() ==> item.is_none(),
{
    set.get_index(index).copied()
}

/// What `hashes` adds to `have`: each hash that `have` lacks goes to the end, in
/// the order of `hashes`, the first time it occurs.
pub open spec fn append_new(have: Seq<block::Hash>, hashes: Seq<block::Hash>) -> Seq<block::Hash>
    decreases hashes.len(),
{
    if hashes.len() == 0 {
        have
    } else if have.contains(hashes[0]) {
        append_new(have, hashes.drop_first())
    } else {
        append_new(have.push(hashes[0]), hashes.drop_first())
    }
}

/// Block hashes queued for download, in the order in which they were first
/// inserted.  A set that starts empty and grows by `insert` or `extend` holds
/// no hash twice.
pub struct DownloadSet {
    items: IndexSet<(u128, u128), RandomState>,
}

impl View for DownloadSet {
    type V = Seq<block::Hash>;

    closed spec fn view(&self) -> Seq<block::Hash> {
        ordered_items(self.items).map_values(|words: (u128, u128)| block::Hash::of_words(words))
    }
}

impl DownloadSet {
    proof fn lemma_contains(self, hash: block::Hash)
        ensures
            self@.contains(hash) == ordered_items(self.items).contains(hash.words()),
    {
        let items = ordered_items(self.items);
        if self@.contains(hash) {
            let i = choose|i: int| 0 <= i < self@.len() && self@[i] == hash;
            assert(items[i] == hash.words());
        }
        if items.contains(hash.words()) {
            let i = choose|i: int| 0 <= i < items.len() && items[i] == hash.words();
            assert(self@[i] == hash);
        }
    }

    /// An empty download set.
    pub fn new() -> (set: Self)
        ensures
            set@ == Seq::<block::Hash>::empty(),
    {
        DownloadSet { items: index_set_new() }
    }

    /// The number of queued hashes.
    pub fn len(&self) -> (len: usize)
        ensures
            len == self@.len(),
    {
        index_set_len(&self.items)
    }

    /// Whether `hash` is queued.
    pub fn contains(&self, hash: &block::Hash) -> (found: bool)
        ensures
            found == self@.contains(*hash),
    {
        proof {
            self.lemma_contains(*hash);
        }
        index_set_contains(&self.items, &(hash.0, hash.1))
    }

    /// Queues `hash` behind the hashes already queued, unless it is queued
    /// already.  Returns whether the hash is new.
    pub fn insert(&mut self, hash: block::Hash) -> (fresh: bool)
        ensures
            fresh == !old(self)@.contains(hash),
            final(self)@ == append_new(old(self)@, seq![hash]),
            fresh ==> final(self)@ == old(self)@.push(hash),
            !fresh ==> final(self)@ == old(self)@,
    {
        proof {
            self.lemma_contains(hash);
            reveal_with_fuel(append_new, 2);
            assert(seq![hash].drop_first() =~= Seq::<block::Hash>::empty());
        }
        let fresh = index_set_insert(&mut self.items, (hash.0, hash.1));
        fresh
    }

    /// Queues every hash of `hashes` that is not queued yet, in the order of `hashes`.
    pub fn extend(&mut self, hashes: &Vec<block::Hash>)
        ensures
            final(self)@ == append_new(old(self)@, hashes@),
    {
        let mut i: usize = 0;
        proof {
            assert(hashes@.skip(0) =~= hashes@);
        }
        while i < hashes.len()
            invariant
                i <= hashes.len(),
                append_new(self@, hashes@.skip(i as int)) == append_new(old(self)@, hashes@),
            decreases hashes.len() - i,
        {
            proof {
                let rest = hashes@.skip(i as int);
                assert(rest.drop_first() =~= hashes@.skip(i + 1));
                assert(rest[0] == hashes@[i as int]);
            }
            self.insert(hashes[i]);
            i += 1;
        }
    }

    /// The queued hashes, first queued first.
    pub fn into_vec(self) -> (hashes: Vec<block::Hash>)
        ensures
            hashes@ == self@,
    {
        self.to_vec()
    }

    /// A copy of the queued hashes, first queued first.
    pub fn to_vec(&self) -> (hashes: Vec<block::Hash>)
        ensures
            hashes@ == self@,
    {
        let len = index_set_len(&self.items);
        let mut hashes: Vec<block::Hash> = Vec::new();
        let mut i: usize = 0;
        while i < len
            invariant
                i <= len,
                len == self@.len(),
                hashes@ == self@.take(i as int),
            decreases len - i,
        {
            match index_set_get_index(&self.items, i) {
                Some(words) => {
                    hashes.push(block::Hash(words.0, words.1));
                    proof {
                        assert(self@.take(i + 1) =~= self@.take(i as int).push(self@[i as int]));
                    }
                },
                None => {
                    assert(false);
                },
            }
            i += 1;
        }
        proof {
            assert(self@.take(len as int) =~= self@);
        }
        hashes
    }
}

/// No hash is queued twice: appending the new hashes of any list to a
/// sequence without repeats gives a sequence without repeats.
pub proof fn law_append_new_keeps_distinct(have: Seq<block::Hash>, hashes: Seq<block::Hash>)
    requires
        have.no_duplicates(),
    ensures
        append_new(have, hashes).no_duplicates(),
    decreases hashes.len(),
{
    if hashes.len() > 0 {
        if have.contains(hashes[0]) {
            law_append_new_keeps_distinct(have, hashes.drop_first());
        } else {
            let next = have.push(hashes[0]);
            assert forall|i: int, j: int| 0 <= i < next.len() && 0 <= j < next.len() && i != j implies next[i] != next[j] by {
                if i < have.len() && j < have.len() {
                } else if i < have.len() {
                    assert(have.contains(have[i]));
                } else {
                    assert(have.contains(have[j]));
                }
            }
            law_append_new_keeps_distinct(next, hashes.drop_first());
        }
    }
}

} // verus!
