//! The limits and delays of the network layer.

use vstd::prelude::*;

verus! {

/// The number of peers that are asked for addresses at once.
pub const GET_ADDR_FANOUT: usize = 3;

/// Seconds between two requests for addresses, at least.
pub const MIN_PEER_GET_ADDR_INTERVAL_SECS: u32 = 10;

/// Seconds that have to pass after a connection attempt to an address
/// before the next attempt to the same address.
pub const MIN_PEER_RECONNECTION_DELAY_SECS: u32 = 119;

/// Seconds for which a peer counts as reachable after it has answered us: three hours.
pub const REACHABLE_PEER_DURATION_SECS: u32 = 3 * 60 * 60;

/// Seconds for which a peer is passed on to other peers after it was seen: three days.
pub const MAX_PEER_ACTIVE_FOR_GOSSIP_SECS: u32 = 3 * 24 * 60 * 60;

/// The round trip time in milliseconds that is taken for a peer of which no answer was timed yet.
pub const EWMA_DEFAULT_RTT_MILLIS: u64 = 20_000;

/// The time in seconds over which the measured load of a peer decays.
pub const EWMA_DECAY_TIME_SECS: u64 = 60;

/// The name under which this node introduces itself to its peers.
pub const USER_AGENT: &'static str = "/Zebra:1.0.0/";

} // verus!
