//! The best tip height as the state engine publishes it.

use vstd::prelude::*;

use crate::chain::best_tip_height::best_of;
use crate::chain::block;

verus! {

/// Keeps the finalized tip height and the tip height of the best
/// non-finalized chain, and says when a new best tip height has to be
/// published.
///
/// The published height is that of the best non-finalized chain where there is
/// one, and the finalized tip height otherwise.  A height is published only
/// when it differs from the height published last.
#[derive(Debug)]
pub struct BestTipHeight {
    finalized: block::Height,
    non_finalized: Option<block::Height>,
    active_value: block::Height,
}

impl BestTipHeight {
    #[verifier::type_invariant]
    spec fn published_is_best(self) -> bool {
        self.active_value == best_of(self.finalized, self.non_finalized)
    }

    /// The finalized tip height that was set last.
    pub closed spec fn finalized(&self) -> block::Height {
        self.finalized
    }

    /// The tip height of the best non-finalized chain that was set last.
    pub closed spec fn non_finalized(&self) -> Option<block::Height> {
        self.non_finalized
    }

    /// The height that was published last.
    pub closed spec fn published(&self) -> block::Height {
        self.active_value
    }

    /// A new instance, with the height that is published at first: the
    /// height of the genesis block.
    pub fn new() -> (made: (Self, block::Height))
        ensures
            made.0.finalized() == block::Height(0),
            made.0.non_finalized().is_none(),
            made.0.published() == block::Height(0),
            made.1 == block::Height(0),
    {
        let genesis_height = block::Height(0);
        (
            BestTipHeight { finalized: genesis_height, non_finalized: None, active_value: genesis_height },
            genesis_height,
        )
    }

    /// The height that was published last.
    pub fn best_tip_height(&self) -> (height: block::Height)
        ensures
            height == self.published(),
            height == best_of(self.finalized(), self.non_finalized()),
    {
        proof {
            use_type_invariant(self);
        }
        self.active_value
    }

    /// Sets the finalized tip height.  Returns the best tip height if it has
    /// to be published: if it differs from the height published last.
    pub fn set_finalized_height(&mut self, new_height: block::Height) -> (publish: Option<block::Height>)
        ensures
            final(self).finalized() == new_height,
            final(self).non_finalized() == old(self).non_finalized(),
            final(self).published() == best_of(new_height, old(self).non_finalized()),
            publish == if final(self).published() != old(self).published() {
                Some(final(self).published())
            } else {
                None
            },
    {
        proof {
            use_type_invariant(&*self);
        }
        let new_value = Self::best(new_height, self.non_finalized);
        let publish = if new_value != self.active_value {
            Some(new_value)
        } else {
            None
        };
        *self = BestTipHeight { finalized: new_height, non_finalized: self.non_finalized, active_value: new_value };
        publish
    }

    /// Sets the tip height of the best non-finalized chain; `None` says that
    /// no block is waiting to be finalized.  Returns the best tip height if it
    /// has to be published: if it differs from the height published last.
    pub fn set_best_non_finalized_height(&mut self, new_height: Option<block::Height>) -> (publish: Option<
        block::Height,
    >)
        ensures
            final(self).finalized() == old(self).finalized(),
            final(self).non_finalized() == new_height,
            final(self).published() == best_of(old(self).finalized(), new_height),
            publish == if final(self).published() != old(self).published() {
                Some(final(self).published())
            } else {
                None
            },
    {
        proof {
            use_type_invariant(&*self);
        }
        let new_value = Self::best(self.finalized, new_height);
        let publish = if new_value != self.active_value {
            Some(new_value)
        } else {
            None
        };
        *self = BestTipHeight { finalized: self.finalized, non_finalized: new_height, active_value: new_value };
        publish
    }

    /// The best tip height for the two heights.
    fn best(finalized: block::Height, non_finalized: Option<block::Height>) -> (height: block::Height)
        ensures
            height == best_of(finalized, non_finalized),
    {
        match non_finalized {
            Some(height) => height,
            None => finalized,
        }
    }
}

} // verus!
