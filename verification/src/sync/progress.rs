//! What the node reports of its progress towards the chain tip.

use vstd::prelude::*;

use crate::chain::block;

verus! {

/// The number of blocks behind the estimated tip up to which the node counts as at the tip.
pub const MAX_CLOSE_TO_TIP_BLOCKS: i64 = 1;

/// The number of blocks behind the estimated tip from which a sync that
/// has stopped counts as stalled.
pub const MIN_SYNC_WARNING_BLOCKS: i64 = 60;

/// How the sync stands.
#[derive(Clone, Copy, Debug, PartialEq, Eq, Structural)]
pub enum SyncProgress {
    /// The syncer has stopped, a long way from the estimated tip: the sync
    /// may have stalled, or the estimate is wrong.
    Stalled,
    /// The node is at the chain tip.
    FinishedInitialSync,
    /// The node is syncing.
    Syncing,
}

/// A report of the progress of the sync.
#[derive(Clone, Copy, Debug, PartialEq, Eq, Structural)]
pub struct ProgressReport {
    /// How the sync stands.
    pub progress: SyncProgress,
    /// The number of blocks between the best tip and the estimated tip of
    /// the network; negative where the node is ahead of the estimate.
    pub remaining_sync_blocks: i64,
}

/// How the sync stands when the syncer is or is not close to the tip and
/// `remaining` blocks are left to the estimated tip.
pub open spec fn progress_of(is_close_to_tip: bool, remaining: int) -> SyncProgress {
    if is_close_to_tip && remaining > MIN_SYNC_WARNING_BLOCKS {
        SyncProgress::Stalled
    } else if is_close_to_tip || remaining <= MAX_CLOSE_TO_TIP_BLOCKS {
        SyncProgress::FinishedInitialSync
    } else {
        SyncProgress::Syncing
    }
}

/// Reports the progress of the sync, with the best tip at `current_height`
/// and the tip of the network estimated at `estimated_height`.
pub fn progress_report(is_close_to_tip: bool, current_height: block::Height, estimated_height: block::Height) -> (report: ProgressReport)
    ensures
        report.remaining_sync_blocks == estimated_height.0 - current_height.0,
        report.progress == progress_of(is_close_to_tip, estimated_height.0 - current_height.0),
{
    let remaining_sync_blocks: i64 = estimated_height.0 as i64 - current_height.0 as i64;
    let progress = if is_close_to_tip && remaining_sync_blocks > MIN_SYNC_WARNING_BLOCKS {
        SyncProgress::Stalled
    } else if is_close_to_tip {
        SyncProgress::FinishedInitialSync
    } else if remaining_sync_blocks <= MAX_CLOSE_TO_TIP_BLOCKS {
        SyncProgress::FinishedInitialSync
    } else {
        SyncProgress::Syncing
    };
    ProgressReport { progress, remaining_sync_blocks }
}

} // verus!
