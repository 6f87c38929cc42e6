//! The errors of block download and verification, and which of them make the
//! syncer start over.

use vstd::prelude::*;

use crate::chain::block;

verus! {

/// Why the checkpoint verifier turned a block down.
#[derive(Clone, Debug, PartialEq, Eq)]
pub enum VerifyCheckpointError {
    /// The block is at or below the highest checkpoint that was verified already.
    AlreadyVerified { height: block::Height, verified_height: block::Height },
    /// Any other failure, by its debug text.
    Other(String),
}

/// Why a block failed the semantic block checks.
#[derive(Clone, Debug, PartialEq, Eq)]
pub enum BlockError {
    /// The block is in the chain or in the verification queue already.
    AlreadyInChain(block::Hash, String),
    /// Any other failure, by its debug text.
    Other(String),
}

/// Why the block verifier turned a block down.
#[derive(Clone, Debug, PartialEq, Eq)]
pub enum VerifyBlockError {
    /// The block failed a semantic check.
    Block { source: BlockError },
    /// The state refused to commit the block; holds the debug text of the state's error.
    Commit(String),
    /// Any other failure, by its debug text.
    Other(String),
}

/// Why the chain verifier turned a block down.
#[derive(Clone, Debug, PartialEq, Eq)]
pub enum VerifyChainError {
    Checkpoint(VerifyCheckpointError),
    Block(VerifyBlockError),
}

/// Why the download or the verification of one block failed.
#[derive(Clone, Debug, PartialEq, Eq)]
pub enum BlockDownloadVerifyError {
    /// The network request failed; holds the debug text of the network error.
    DownloadFailed(String),
    /// The block did not pass verification.
    Invalid(VerifyChainError),
    /// The download was cancelled.
    CancelledDuringDownload,
    /// The verification was cancelled.
    CancelledDuringVerification,
    /// The block is behind the height of the state tip.
    BehindTipHeightLimit,
    /// The block is further ahead of the state tip than the lookahead allows.
    AboveLookaheadHeightLimit,
    /// The block has no valid height.
    InvalidHeight,
}

/// The debug text by which a commit error says that the state holds the block already.
pub open spec fn already_committed_text() -> Seq<char> {
    "block is already committed to the state"@
}

/// The debug text by which a network error says that no peer had the block.
pub open spec fn not_found_text() -> Seq<char> {
    "NotFound"@
}

/// Whether `needle` occurs in `text` as a contiguous run of characters.
pub open spec fn occurs_in(needle: Seq<char>, text: Seq<char>) -> bool {
    exists|i: int| 0 <= i && i + needle.len() <= text.len() && #[trigger] text.subrange(i, i + needle.len()) == needle
}

/// `str::contains` with a string pattern: whether the pattern matches a
/// sub-slice of the text.
#[verifier::external_body]
fn text_contains(text: &str, needle: &str) -> (found: bool)
    ensures
        found == occurs_in(needle@, text@),
{
    text.contains(needle)
}

/// Whether the syncer goes on after the error `e`: the block was verified
/// already, is in the chain already, is committed already, was cancelled, is
/// behind the state tip, or was not found by the peer that was asked.
pub open spec fn is_continuation_error(e: BlockDownloadVerifyError) -> bool {
    match e {
        BlockDownloadVerifyError::Invalid(
            VerifyChainError::Checkpoint(VerifyCheckpointError::AlreadyVerified { .. }),
        ) => true,
        BlockDownloadVerifyError::Invalid(
            VerifyChainError::Block(VerifyBlockError::Block { source: BlockError::AlreadyInChain(_, _) }),
        ) => true,
        BlockDownloadVerifyError::CancelledDuringDownload => true,
        BlockDownloadVerifyError::CancelledDuringVerification => true,
        BlockDownloadVerifyError::BehindTipHeightLimit => true,
        BlockDownloadVerifyError::Invalid(VerifyChainError::Block(VerifyBlockError::Commit(source))) => occurs_in(
            already_committed_text(),
            source@,
        ),
        BlockDownloadVerifyError::DownloadFailed(source) => occurs_in(not_found_text(), source@),
        _ => false,
    }
}

/// Whether the sync has to be restarted after the error `e` from the block
/// downloader and verifier: after every error but a continuation error.
pub fn should_restart_sync(e: &BlockDownloadVerifyError) -> (restart: bool)
    ensures
        restart == !is_continuation_error(*e),
{
    match e {
        BlockDownloadVerifyError::Invalid(
            VerifyChainError::Checkpoint(VerifyCheckpointError::AlreadyVerified { .. }),
        ) => false,
        BlockDownloadVerifyError::Invalid(
            VerifyChainError::Block(VerifyBlockError::Block { source: BlockError::AlreadyInChain(_, _) }),
        ) => false,
        BlockDownloadVerifyError::CancelledDuringDownload
        | BlockDownloadVerifyError::CancelledDuringVerification => false,
        BlockDownloadVerifyError::BehindTipHeightLimit => false,
        BlockDownloadVerifyError::Invalid(VerifyChainError::Block(VerifyBlockError::Commit(source))) => {
            !text_contains(source.as_str(), "block is already committed to the state")
        },
        BlockDownloadVerifyError::DownloadFailed(source) => !text_contains(source.as_str(), "NotFound"),
        _ => true,
    }
}

} // verus!
