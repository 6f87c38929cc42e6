//! The lengths of the most recent answers to the syncer's requests for new block hashes.

use vstd::prelude::*;

verus! {

/// The number of recent sync lengths that are kept.
pub const MAX_RECENT_LENGTHS: usize = 3;

/// What the recent lengths are after `length` is pushed: `length` in front,
/// then the newest of the earlier lengths, `MAX_RECENT_LENGTHS` in all at most.
pub open spec fn pushed(recent: Seq<usize>, length: usize) -> Seq<usize> {
    let all = seq![length] + recent;
    if all.len() <= MAX_RECENT_LENGTHS {
        all
    } else {
        all.take(MAX_RECENT_LENGTHS as int)
    }
}

/// A ring of the lengths of the most recent ObtainTips and ExtendTips results,
/// the newest first.
#[derive(Clone, Debug)]
pub struct RecentSyncLengths {
    recent_lengths: Vec<usize>,
}

impl View for RecentSyncLengths {
    type V = Seq<usize>;

    closed spec fn view(&self) -> Seq<usize> {
        self.recent_lengths@
    }
}

impl RecentSyncLengths {
    /// A ring that holds no length yet.
    pub fn new() -> (recent: Self)
        ensures
            recent@ == Seq::<usize>::empty(),
    {
        RecentSyncLengths { recent_lengths: Vec::new() }
    }

    /// Records the number of new hashes of an ObtainTips result.
    pub fn push_obtain_tips_length(&mut self, sync_length: usize)
        ensures
            final(self)@ == pushed(old(self)@, sync_length),
    {
        self.update(sync_length)
    }

    /// Records the number of new hashes of an ExtendTips result.
    pub fn push_extend_tips_length(&mut self, sync_length: usize)
        ensures
            final(self)@ == pushed(old(self)@, sync_length),
    {
        self.update(sync_length)
    }

    /// The recorded lengths, the newest first.
    pub fn lengths(&self) -> (lengths: Vec<usize>)
        ensures
            lengths@ == self@,
    {
        self.recent_lengths.clone()
    }

    fn update(&mut self, sync_length: usize)
        ensures
            final(self)@ == pushed(old(self)@, sync_length),
    {
        self.recent_lengths.insert(0, sync_length);
        self.recent_lengths.truncate(MAX_RECENT_LENGTHS);
        proof {
            assert(old(self)@.insert(0, sync_length) =~= seq![sync_length] + old(self)@);
        }
    }
}

} // verus!
