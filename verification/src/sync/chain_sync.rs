//! The syncer's state and the decisions of its control loop.
//!
//! The syncer asks peers for the hashes that follow the local chain
//! (ObtainTips), then again and again for the hashes that follow each tip it
//! has found (ExtendTips), and hands every new hash to the block downloader.
//! Sending the requests and waiting for the answers is the caller's part; what
//! the answers mean, and what has to happen next, is decided here.

use vstd::prelude::*;

use crate::chain::block;
use crate::sync::download_set::DownloadSet;
use crate::sync::error::{is_continuation_error, should_restart_sync, BlockDownloadVerifyError};
use crate::sync::recent_sync_lengths::{pushed, RecentSyncLengths};
use crate::sync::status::SyncStatus;
use crate::sync::tips::{
    copy_range, extend_response, extend_responses, extend_tips_upto, first_unknown, is_known,
    obtain_response, obtain_responses, responses_about, take_in_unknown, CheckedTip, TipsPlan,
    TipsResponse,
};

verus! {

/// The number of peers that each ObtainTips and ExtendTips request is sent to.
pub const FANOUT: usize = 3;

/// How many times the download of one block is tried again.
pub const BLOCK_DOWNLOAD_RETRY_LIMIT: usize = 2;

/// The largest distance between two checkpoints.
pub const MAX_CHECKPOINT_HEIGHT_GAP: usize = 400;

/// The lowest lookahead limit that the syncer accepts: two checkpoint
/// intervals, so that the lookahead always holds one whole checkpoint.
pub const MIN_LOOKAHEAD_LIMIT: usize = MAX_CHECKPOINT_HEIGHT_GAP * 2;

/// The lookahead limit that is used where the configuration names none.
pub const DEFAULT_LOOKAHEAD_LIMIT: usize = MAX_CHECKPOINT_HEIGHT_GAP * 5;

/// The number of hashes that an answer to ObtainTips or ExtendTips is expected to hold at most.
pub const MAX_TIPS_RESPONSE_HASH_COUNT: usize = 500;

/// Seconds to wait for an answer to ObtainTips or ExtendTips.
pub const TIPS_RESPONSE_TIMEOUT_SECS: u64 = 6;

/// Seconds to wait for the download of one block.
pub const BLOCK_DOWNLOAD_TIMEOUT_SECS: u64 = 30;

/// Seconds to wait for the verification of one block.
pub const BLOCK_VERIFY_TIMEOUT_SECS: u64 = 180;

/// Seconds to wait before the sync starts over.
pub const SYNC_RESTART_DELAY_SECS: u64 = 67;

/// Seconds to wait before the download of the genesis block is tried again.
pub const GENESIS_TIMEOUT_RETRY_SECS: u64 = 5;

/// The part of the node's configuration that the syncer reads.
#[derive(Clone, Copy, Debug, PartialEq, Eq, Structural)]
pub struct SyncConfig {
    /// The number of block downloads that may run at once.
    pub max_concurrent_block_requests: usize,
    /// The number of blocks that may be downloading or verifying at once.
    pub lookahead_limit: usize,
}

/// Why an ObtainTips round was given up.
#[derive(Clone, Copy, Debug, PartialEq, Eq, Structural)]
pub enum ObtainTipsError {
    /// A hash that was queued for download is in the state already: it lies
    /// behind our chain tip.
    QueuedDownloadBehindTip,
}

/// Something that happened in the sync loop, on which the next step depends.
#[derive(Debug, PartialEq, Eq)]
pub enum SyncEvent {
    /// The genesis block is in the state: the sync loop can begin.
    Started,
    /// An ObtainTips round ended well.
    TipsObtained,
    /// An ObtainTips round failed.
    ObtainTipsFailed,
    /// An ExtendTips round ended well.
    TipsExtended,
    /// An ExtendTips round failed.
    ExtendTipsFailed,
    /// A block task that was ready without waiting ended with `result`.
    ReadyDownload { result: Result<block::Hash, BlockDownloadVerifyError> },
    /// No block task is ready without waiting; `in_flight` tasks are running.
    NoReadyDownload { in_flight: usize },
    /// A block task that the loop waited for ended with `result`; `in_flight` tasks are still running.
    AwaitedDownload { result: Result<block::Hash, BlockDownloadVerifyError>, in_flight: usize },
}

/// What the sync loop does next.
#[derive(Clone, Copy, Debug, PartialEq, Eq, Structural)]
pub enum SyncAction {
    /// Ask peers for the hashes that follow the local chain.
    ObtainTips,
    /// Cancel every block task, wait `delay_secs` seconds, then ask peers for
    /// the hashes that follow the local chain.
    Restart { delay_secs: u64 },
    /// Take the result of a block task that is ready now, without waiting.
    PollDownloads,
    /// Wait until one block task has ended.
    AwaitDownload,
    /// Ask peers for the hashes that follow each tip.
    ExtendTips,
}

/// What the loop that fetches the genesis block does next.
#[derive(Clone, Copy, Debug, PartialEq, Eq, Structural)]
pub enum GenesisAction {
    /// The state holds the genesis block.
    Done,
    /// Download and verify the genesis block now.
    Download,
    /// Wait `delay_secs` seconds, then download and verify the genesis block.
    RetryAfter { delay_secs: u64 },
}

/// Whether the block task result makes the sync start over.
pub open spec fn restarts(result: Result<block::Hash, BlockDownloadVerifyError>) -> bool {
    result matches Err(e) && !is_continuation_error(e)
}

/// The step that follows once no more results are taken without waiting:
/// with more than `lookahead_limit` tasks running the loop waits for one of
/// them, otherwise it extends the tips.
pub open spec fn wait_or_extend(in_flight: usize, lookahead_limit: usize) -> SyncAction {
    if in_flight > lookahead_limit {
        SyncAction::AwaitDownload
    } else {
        SyncAction::ExtendTips
    }
}

/// The step of the sync loop that follows `event`, with `tips` the tips that
/// the syncer follows at that moment.
///
/// A failed round and an error that is no continuation error start the sync
/// over, after `SYNC_RESTART_DELAY_SECS`.  So does a round that leaves no tip to
/// follow.  After a continuation error the loop goes on as after a block that
/// was committed.
pub open spec fn sync_decision(tips: Seq<CheckedTip>, lookahead_limit: usize, event: SyncEvent) -> SyncAction {
    match event {
        SyncEvent::Started => SyncAction::ObtainTips,
        SyncEvent::ObtainTipsFailed | SyncEvent::ExtendTipsFailed => SyncAction::Restart {
            delay_secs: SYNC_RESTART_DELAY_SECS,
        },
        SyncEvent::TipsObtained | SyncEvent::TipsExtended => if tips.len() == 0 {
            SyncAction::Restart { delay_secs: SYNC_RESTART_DELAY_SECS }
        } else {
            SyncAction::PollDownloads
        },
        SyncEvent::ReadyDownload { result } => if restarts(result) {
            SyncAction::Restart { delay_secs: SYNC_RESTART_DELAY_SECS }
        } else {
            SyncAction::PollDownloads
        },
        SyncEvent::NoReadyDownload { in_flight } => wait_or_extend(in_flight, lookahead_limit),
        SyncEvent::AwaitedDownload { result, in_flight } => if restarts(result) {
            SyncAction::Restart { delay_secs: SYNC_RESTART_DELAY_SECS }
        } else {
            wait_or_extend(in_flight, lookahead_limit)
        },
    }
}

/// An error of a block task either lets the sync loop go on or starts it over.
///
/// After a continuation error the loop takes the very step that it takes after
/// a block that was committed, so nothing is cancelled and nothing is asked for
/// again.  After any other error the next step is a restart: every block task
/// is cancelled and, `SYNC_RESTART_DELAY_SECS` later, a new ObtainTips begins.
pub proof fn law_error_continues_or_restarts(
    tips: Seq<CheckedTip>,
    lookahead_limit: usize,
    e: BlockDownloadVerifyError,
    committed: block::Hash,
    in_flight: usize,
)
    ensures
        is_continuation_error(e) ==> sync_decision(
            tips,
            lookahead_limit,
            SyncEvent::ReadyDownload { result: Err(e) },
        ) == sync_decision(tips, lookahead_limit, SyncEvent::ReadyDownload { result: Ok(committed) }),
        is_continuation_error(e) ==> sync_decision(
            tips,
            lookahead_limit,
            SyncEvent::AwaitedDownload { result: Err(e), in_flight },
        ) == sync_decision(tips, lookahead_limit, SyncEvent::AwaitedDownload { result: Ok(committed), in_flight }),
        !is_continuation_error(e) ==> sync_decision(
            tips,
            lookahead_limit,
            SyncEvent::ReadyDownload { result: Err(e) },
        ) == (SyncAction::Restart { delay_secs: SYNC_RESTART_DELAY_SECS }),
        !is_continuation_error(e) ==> sync_decision(
            tips,
            lookahead_limit,
            SyncEvent::AwaitedDownload { result: Err(e), in_flight },
        ) == (SyncAction::Restart { delay_secs: SYNC_RESTART_DELAY_SECS }),
{
}

/// Whether the state holds one of the first `len` queued blocks, by `in_state`.
pub open spec fn any_known(len: int, in_state: Seq<bool>) -> bool {
    exists|i: int| 0 <= i < len && #[trigger] is_known(in_state, i)
}

/// The step of the genesis loop: nothing is left to do once the state holds
/// the genesis block; after a failed attempt the next one waits
/// `GENESIS_TIMEOUT_RETRY_SECS`.
pub fn genesis_step(state_has_genesis: bool, last_attempt_failed: bool) -> (action: GenesisAction)
    ensures
        state_has_genesis ==> action == GenesisAction::Done,
        !state_has_genesis && last_attempt_failed ==> action == (GenesisAction::RetryAfter {
            delay_secs: GENESIS_TIMEOUT_RETRY_SECS,
        }),
        !state_has_genesis && !last_attempt_failed ==> action == GenesisAction::Download,
{
    if state_has_genesis {
        GenesisAction::Done
    } else if last_attempt_failed {
        GenesisAction::RetryAfter { delay_secs: GENESIS_TIMEOUT_RETRY_SECS }
    } else {
        GenesisAction::Download
    }
}

/// The syncer: the tips it follows, the lengths of its recent rounds, and its limits.
pub struct ChainSync {
    genesis_hash: block::Hash,
    lookahead_limit: usize,
    prospective_tips: Vec<CheckedTip>,
    recent_syncs: RecentSyncLengths,
}

impl ChainSync {
    /// The tips that the syncer follows, in the order in which it found them.
    pub closed spec fn tips(&self) -> Seq<CheckedTip> {
        self.prospective_tips@
    }

    /// The lengths of the recent rounds, the newest first.
    pub closed spec fn recent_lengths(&self) -> Seq<usize> {
        self.recent_syncs@
    }

    /// The number of blocks that may be in flight at once.
    pub closed spec fn limit(&self) -> usize {
        self.lookahead_limit
    }

    /// The hash of the genesis block of the network that is synced.
    pub closed spec fn genesis(&self) -> block::Hash {
        self.genesis_hash
    }

    /// A syncer for the chain that starts at `genesis_hash`, with the status
    /// that goes with it.  The lookahead limit of the configuration has to reach
    /// `MIN_LOOKAHEAD_LIMIT`.
    pub fn new(config: &SyncConfig, genesis_hash: block::Hash) -> (made: (Self, SyncStatus))
        requires
            config.lookahead_limit >= MIN_LOOKAHEAD_LIMIT,
        ensures
            made.0.tips() == Seq::<CheckedTip>::empty(),
            made.0.recent_lengths() == Seq::<usize>::empty(),
            made.0.limit() == config.lookahead_limit,
            made.0.genesis() == genesis_hash,
            made.1@ == Seq::<usize>::empty(),
    {
        let new_syncer = ChainSync {
            genesis_hash,
            lookahead_limit: config.lookahead_limit,
            prospective_tips: Vec::new(),
            recent_syncs: RecentSyncLengths::new(),
        };
        (new_syncer, SyncStatus::new(Vec::new()))
    }

    /// The hash of the genesis block.
    pub fn genesis_hash(&self) -> (hash: block::Hash)
        ensures
            hash == self.genesis(),
    {
        self.genesis_hash
    }

    /// The lookahead limit.
    pub fn lookahead_limit(&self) -> (limit: usize)
        ensures
            limit == self.limit(),
    {
        self.lookahead_limit
    }

    /// The tips that the syncer follows.
    pub fn prospective_tips(&self) -> (tips: Vec<CheckedTip>)
        ensures
            tips@ == self.tips(),
    {
        self.prospective_tips.clone()
    }

    /// The status that goes with the recent rounds.
    pub fn sync_status(&self) -> (status: SyncStatus)
        ensures
            status@ == self.recent_lengths(),
    {
        SyncStatus::new(self.recent_syncs.lengths())
    }

    /// Takes in the answers to an ObtainTips request, in the order of their
    /// arrival, and returns the hashes to download, in download order.
    pub fn obtain_tips(&mut self, responses: &Vec<TipsResponse>) -> (downloads: DownloadSet)
        ensures
            (TipsPlan { tips: final(self).tips(), downloads: downloads@ }) == obtain_responses(
                (TipsPlan { tips: old(self).tips(), downloads: Seq::empty() }),
                responses@,
            ),
            final(self).recent_lengths() == old(self).recent_lengths(),
            final(self).limit() == old(self).limit(),
            final(self).genesis() == old(self).genesis(),
    {
        let mut download_set = DownloadSet::new();
        let ghost start = TipsPlan { tips: self.tips(), downloads: Seq::empty() };
        let mut k: usize = 0;
        proof {
            assert(responses@.take(0) =~= Seq::<TipsResponse>::empty());
        }
        while k < responses.len()
            invariant
                k <= responses.len(),
                start == (TipsPlan { tips: old(self).tips(), downloads: Seq::empty() }),
                (TipsPlan { tips: self.tips(), downloads: download_set@ }) == obtain_responses(
                    start,
                    responses@.take(k as int),
                ),
                self.recent_lengths() == old(self).recent_lengths(),
                self.limit() == old(self).limit(),
                self.genesis() == old(self).genesis(),
            decreases responses.len() - k,
        {
            proof {
                let next = responses@.take(k + 1);
                assert(next.drop_last() =~= responses@.take(k as int));
                assert(next.last() == responses@[k as int]);
            }
            let response = &responses[k];
            let n = response.hashes.len();
            if n > 0 {
                match first_unknown(n - 1, &response.in_state) {
                    Some(first) => {
                        let unknown_hashes = copy_range(&response.hashes, first, n - 1);
                        proof {
                            assert(response.hashes@.drop_last().skip(first as int) =~= unknown_hashes@);
                        }
                        take_in_unknown(&mut self.prospective_tips, &mut download_set, &unknown_hashes);
                    },
                    None => {},
                }
            }
            k += 1;
        }
        proof {
            assert(responses@.take(responses@.len() as int) =~= responses@);
        }
        download_set
    }

    /// Ends an ObtainTips round.  `in_state` says for each position of
    /// `downloads` whether the state holds that block by now.  If it holds one,
    /// the round fails; otherwise the length of the round is recorded and the
    /// hashes are handed out for download, in download order.
    pub fn queue_obtained(&mut self, downloads: DownloadSet, in_state: &Vec<bool>) -> (queued: Result<
        Vec<block::Hash>,
        ObtainTipsError,
    >)
        ensures
            any_known(downloads@.len() as int, in_state@) ==> queued == Err::<Vec<block::Hash>, ObtainTipsError>(
                ObtainTipsError::QueuedDownloadBehindTip,
            ) && final(self).recent_lengths() == old(self).recent_lengths(),
            !any_known(downloads@.len() as int, in_state@) ==> queued.is_ok() && queued.unwrap()@ == downloads@
                && final(self).recent_lengths() == pushed(
                old(self).recent_lengths(),
                downloads@.len() as usize,
            ),
            final(self).tips() == old(self).tips(),
            final(self).limit() == old(self).limit(),
            final(self).genesis() == old(self).genesis(),
    {
        let new_downloads = downloads.len();
        let mut i: usize = 0;
        while i < new_downloads
            invariant
                i <= new_downloads,
                new_downloads == downloads@.len(),
                forall|j: int| 0 <= j < i ==> !is_known(in_state@, j),
            decreases new_downloads - i,
        {
            if i < in_state.len() && in_state[i] {
                assert(is_known(in_state@, i as int));
                return Err(ObtainTipsError::QueuedDownloadBehindTip);
            }
            i += 1;
        }
        self.recent_syncs.push_obtain_tips_length(new_downloads);
        Ok(downloads.into_vec())
    }

    /// Takes in the answers to an ExtendTips request and returns the hashes to
    /// download, in download order.  `responses[i]` holds the answers about the
    /// tip at position `i` of the tips that the syncer followed before the
    /// call, in the order of their arrival.  The new tips replace the old
    /// ones, and the length of the round is recorded.
    pub fn extend_tips(&mut self, responses: &Vec<Vec<Vec<block::Hash>>>) -> (queued: Vec<block::Hash>)
        ensures
            (TipsPlan { tips: final(self).tips(), downloads: queued@ }) == extend_tips_upto(
                (TipsPlan { tips: Seq::empty(), downloads: Seq::empty() }),
                old(self).tips(),
                responses@,
                old(self).tips().len() as int,
            ),
            final(self).recent_lengths() == pushed(old(self).recent_lengths(), queued@.len() as usize),
            final(self).limit() == old(self).limit(),
            final(self).genesis() == old(self).genesis(),
    {
        let mut tips: Vec<CheckedTip> = Vec::new();
        std::mem::swap(&mut tips, &mut self.prospective_tips);
        let mut download_set = DownloadSet::new();
        let ghost start = TipsPlan { tips: Seq::<CheckedTip>::empty(), downloads: Seq::<block::Hash>::empty() };
        let mut t: usize = 0;
        while t < tips.len()
            invariant
                t <= tips.len(),
                tips@ == old(self).tips(),
                start == (TipsPlan { tips: Seq::<CheckedTip>::empty(), downloads: Seq::<block::Hash>::empty() }),
                (TipsPlan { tips: self.tips(), downloads: download_set@ }) == extend_tips_upto(
                    start,
                    tips@,
                    responses@,
                    t as int,
                ),
                self.recent_lengths() == old(self).recent_lengths(),
                self.limit() == old(self).limit(),
                self.genesis() == old(self).genesis(),
            decreases tips.len() - t,
        {
            let tip = tips[t];
            if t < responses.len() {
                let about = &responses[t];
                let ghost before = TipsPlan { tips: self.tips(), downloads: download_set@ };
                let mut k: usize = 0;
                proof {
                    assert(about@.take(0) =~= Seq::<Vec<block::Hash>>::empty());
                }
                while k < about.len()
                    invariant
                        k <= about.len(),
                        (TipsPlan { tips: self.tips(), downloads: download_set@ }) == extend_responses(
                            before,
                            tip,
                            about@.take(k as int),
                        ),
                        self.recent_lengths() == old(self).recent_lengths(),
                        self.limit() == old(self).limit(),
                        self.genesis() == old(self).genesis(),
                    decreases about.len() - k,
                {
                    proof {
                        let next = about@.take(k + 1);
                        assert(next.drop_last() =~= about@.take(k as int));
                        assert(next.last() == about@[k as int]);
                    }
                    Self::take_in_extension(&mut self.prospective_tips, &mut download_set, tip, &about[k]);
                    k += 1;
                }
                proof {
                    assert(about@.take(about@.len() as int) =~= about@);
                }
            }
            t += 1;
        }
        let new_downloads = download_set.len();
        self.recent_syncs.push_extend_tips_length(new_downloads);
        download_set.into_vec()
    }

    /// Takes one answer about `tip` into the tips and the download set.
    fn take_in_extension(
        tips: &mut Vec<CheckedTip>,
        downloads: &mut DownloadSet,
        tip: CheckedTip,
        hashes: &Vec<block::Hash>,
    )
        ensures
            (TipsPlan { tips: final(tips)@, downloads: final(downloads)@ }) == extend_response(
                (TipsPlan { tips: old(tips)@, downloads: old(downloads)@ }),
                tip,
                hashes@,
            ),
    {
        let n = hashes.len();
        let from: usize = if n >= 1 && hashes[0] == tip.expected_next {
            0
        } else if n >= 2 && hashes[1] == tip.expected_next {
            1
        } else {
            return ;
        };
        let unknown_hashes = copy_range(hashes, from, n - 1);
        proof {
            if from == 0 {
                assert(hashes@.drop_last() =~= unknown_hashes@);
            } else {
                assert(hashes@.skip(1).drop_last() =~= unknown_hashes@);
            }
        }
        take_in_unknown(tips, downloads, &unknown_hashes);
    }

    /// Decides the next step of the sync loop after `event`.  Where the sync
    /// starts over, the syncer forgets its tips.
    pub fn next_action(&mut self, event: &SyncEvent) -> (action: SyncAction)
        ensures
            action == sync_decision(old(self).tips(), old(self).limit(), *event),
            action is Restart ==> final(self).tips() == Seq::<CheckedTip>::empty(),
            !(action is Restart) ==> final(self).tips() == old(self).tips(),
            final(self).recent_lengths() == old(self).recent_lengths(),
            final(self).limit() == old(self).limit(),
            final(self).genesis() == old(self).genesis(),
    {
        let restart = SyncAction::Restart { delay_secs: SYNC_RESTART_DELAY_SECS };
        let action = match event {
            SyncEvent::Started => SyncAction::ObtainTips,
            SyncEvent::ObtainTipsFailed | SyncEvent::ExtendTipsFailed => restart,
            SyncEvent::TipsObtained | SyncEvent::TipsExtended => {
                if self.prospective_tips.len() == 0 {
                    restart
                } else {
                    SyncAction::PollDownloads
                }
            },
            SyncEvent::ReadyDownload { result } => {
                if Self::restarts_sync(result) {
                    restart
                } else {
                    SyncAction::PollDownloads
                }
            },
            SyncEvent::NoReadyDownload { in_flight } => self.wait_or_extend(*in_flight),
            SyncEvent::AwaitedDownload { result, in_flight } => {
                if Self::restarts_sync(result) {
                    restart
                } else {
                    self.wait_or_extend(*in_flight)
                }
            },
        };
        match action {
            SyncAction::Restart { .. } => {
                self.prospective_tips = Vec::new();
            },
            _ => {},
        }
        action
    }

    fn restarts_sync(result: &Result<block::Hash, BlockDownloadVerifyError>) -> (restart: bool)
        ensures
            restart == restarts(*result),
    {
        match result {
            Ok(_) => false,
            Err(e) => should_restart_sync(e),
        }
    }

    fn wait_or_extend(&self, in_flight: usize) -> (action: SyncAction)
        ensures
            action == wait_or_extend(in_flight, self.limit()),
    {
        if in_flight > self.lookahead_limit {
            SyncAction::AwaitDownload
        } else {
            SyncAction::ExtendTips
        }
    }
}

} // verus!
