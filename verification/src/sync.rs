//! The chain synchronizer: the rules by which hashes announced by peers become
//! chain tips to follow and blocks to download.

pub mod chain_sync;
pub mod download_set;
pub mod error;
pub mod progress;
pub mod recent_sync_lengths;
pub mod status;
pub mod tips;
