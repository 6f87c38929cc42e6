//! A peer service that is ready to take a request.

use vstd::prelude::*;

use crate::network::protocol::types::Version;

verus! {

/// A service of the peer set that is ready, with the protocol version that
/// its peer speaks.
pub struct ReadyService<S> {
    pub service: S,
    pub version: Version,
}

impl<S> ReadyService<S> {
    /// The ready service `service` of a peer that speaks `version`.
    pub fn new(service: S, version: Version) -> (ready: Self)
        ensures
            ready.service == service,
            ready.version == version,
    {
        ReadyService { service, version }
    }
}

} // verus!
