//! Access to the height of the best chain tip.

use vstd::prelude::*;

use crate::chain::block;

verus! {

/// Access to the height of the current best chain tip: that of the best
/// non-finalized chain, or the finalized tip where no block is waiting to be
/// finalized.
pub trait BestTipHeight {
    /// The height that `best_tip_height` reads.
    spec fn tip_height(&self) -> block::Height;

    /// The height of the current best chain tip.
    fn best_tip_height(&self) -> (height: block::Height)
        ensures
            height == self.tip_height(),
    ;
}

/// The best tip height that goes with a finalized tip height and, if there
/// is one, the tip height of the best non-finalized chain.
pub open spec fn best_of(finalized: block::Height, non_finalized: Option<block::Height>) -> block::Height {
    match non_finalized {
        Some(height) => height,
        None => finalized,
    }
}

} // verus!
