//! Chain data that the networking core passes around: heights and hashes,
//! transactions and what they spend.

pub mod best_tip_height;
pub mod block;
pub mod orchard;
pub mod parameters;
pub mod sapling;
pub mod serialization;
pub mod sprout;
pub mod transaction;
pub mod transparent;
