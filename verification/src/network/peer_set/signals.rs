//! The signals of the peer set.

use vstd::prelude::*;

verus! {

/// The signal that the peer set sends when it has a request and no peer that
/// is ready for it.  The crawler then tries to open more connections.
#[derive(Copy, Clone, Debug, PartialEq, Eq, Hash, Structural)]
pub struct MorePeers;

/// The signal that the peer set sends to a client to cancel the request that
/// the client is working on.
#[derive(Copy, Clone, Debug, PartialEq, Eq, Hash, Structural)]
pub struct CancelClientWork;

} // verus!
