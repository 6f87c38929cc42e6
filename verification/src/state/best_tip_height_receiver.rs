//! The reading end of the finalized and the non-finalized tip height.

use vstd::prelude::*;

use crate::chain::best_tip_height::{best_of, BestTipHeight};
use crate::chain::block;

verus! {

/// The heights that were received last from the state engine: the
/// finalized tip height, and the tip height of the best non-finalized chain.
#[derive(Clone, Copy, Debug, PartialEq, Eq, Structural)]
pub struct BestTipHeightReceiver {
    pub finalized: block::Height,
    pub non_finalized: Option<block::Height>,
}

impl BestTipHeightReceiver {
    /// A receiver that has received nothing yet: the finalized tip height
    /// starts at 1, and there is no non-finalized chain.
    pub fn new() -> (receiver: Self)
        ensures
            receiver.finalized == block::Height(1),
            receiver.non_finalized.is_none(),
    {
        BestTipHeightReceiver { finalized: block::Height(1), non_finalized: None }
    }
}

impl BestTipHeight for BestTipHeightReceiver {
    open spec fn tip_height(&self) -> block::Height {
        best_of(self.finalized, self.non_finalized)
    }

    /// The height of the best chain tip: that of the best non-finalized
    /// chain, or the finalized tip height where there is none.
    fn best_tip_height(&self) -> (height: block::Height) {
        match self.non_finalized {
            Some(height) => height,
            None => self.finalized,
        }
    }
}

} // verus!
