//! The network layer: what the node knows of its peers and how it talks to them.

pub mod address_book;
pub mod candidate_set;
pub mod constants;
pub mod meta_addr;
pub mod peer;
pub mod peer_set;
pub mod protocol;
