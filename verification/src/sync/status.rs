//! Whether the syncer has likely reached the chain tip.

use vstd::prelude::*;

verus! {

/// The average sync length below which the node counts as close to the tip.
pub const MIN_DIST_FROM_TIP: usize = 20;

/// The sum of `lengths`, where each addition stops at `usize::MAX`.
pub open spec fn saturating_sum(lengths: Seq<usize>) -> int
    decreases lengths.len(),
{
    if lengths.len() == 0 {
        0
    } else {
        let sum = saturating_sum(lengths.drop_last()) + lengths.last();
        if sum > usize::MAX {
            usize::MAX as int
        } else {
            sum
        }
    }
}

/// Whether the moving average of `lengths` is below `MIN_DIST_FROM_TIP`.  With
/// no length recorded the node is not close to the tip.
pub open spec fn close_to_tip(lengths: Seq<usize>) -> bool {
    lengths.len() > 0 && saturating_sum(lengths) / (lengths.len() as int) < MIN_DIST_FROM_TIP
}

/// A reading of the recent sync lengths, from which the mempool and the
/// gossip tasks learn whether the node is near the chain tip.
#[derive(Clone, Debug)]
pub struct SyncStatus {
    latest_sync_lengths: Vec<usize>,
}

impl View for SyncStatus {
    type V = Seq<usize>;

    closed spec fn view(&self) -> Seq<usize> {
        self.latest_sync_lengths@
    }
}

impl SyncStatus {
    /// The status that goes with the given recent sync lengths.
    pub fn new(latest_sync_lengths: Vec<usize>) -> (status: Self)
        ensures
            status@ == latest_sync_lengths@,
    {
        SyncStatus { latest_sync_lengths }
    }

    /// Whether the syncer is close to the chain tip: the average of the recent
    /// sync lengths is below `MIN_DIST_FROM_TIP`.
    pub fn is_close_to_tip(&self) -> (close: bool)
        ensures
            close == close_to_tip(self@),
    {
        let n = self.latest_sync_lengths.len();
        if n == 0 {
            return false;
        }
        let mut sum: usize = 0;
        let mut i: usize = 0;
        while i < n
            invariant
                i <= n,
                n == self.latest_sync_lengths@.len(),
                sum == saturating_sum(self.latest_sync_lengths@.take(i as int)),
            decreases n - i,
        {
            proof {
                let next = self.latest_sync_lengths@.take(i + 1);
                assert(next.drop_last() =~= self.latest_sync_lengths@.take(i as int));
                assert(next.last() == self.latest_sync_lengths@[i as int]);
            }
            sum = sum.saturating_add(self.latest_sync_lengths[i]);
            i += 1;
        }
        proof {
            assert(self.latest_sync_lengths@.take(n as int) =~= self.latest_sync_lengths@);
        }
        sum / n < MIN_DIST_FROM_TIP
    }
}

} // verus!
