//! The peer-networking core of a Zcash full node.
//!
//! The crate holds the rules that drive a node's view of its peers and of the
//! chain: how gossiped addresses are checked, how a peer connection moves
//! between its states, how block hashes announced by peers become a download
//! plan, which transactions the mempool keeps, and which tip height is
//! published to the network layer.  Every exported function carries a contract
//! over a mathematical model of the data it works on.

pub mod chain;
pub mod consensus;
pub mod mempool;
pub mod network;
pub mod rpc;
pub mod state;
pub mod sync;
