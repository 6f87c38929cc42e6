//! What a handshake tells us of a peer.

use vstd::prelude::*;
use vstd::std_specs::cmp::PartialEqSpecImpl;

use crate::network::meta_addr::PeerAddress;
use crate::network::protocol::types::Version;

verus! {

/// The address of a peer and the protocol version that it reported.
#[derive(Clone, Copy, Debug)]
pub struct PeerMetaData {
    address: PeerAddress,
    version: Version,
}

impl PeerMetaData {
    /// The address of the peer.
    pub closed spec fn spec_address(&self) -> PeerAddress {
        self.address
    }

    /// The protocol version that the peer reported.
    pub closed spec fn spec_version(&self) -> Version {
        self.version
    }

    /// The meta-data of the peer at `address` that speaks `version`.
    pub fn new(address: PeerAddress, version: Version) -> (meta_data: Self)
        ensures
            meta_data.spec_address() == address,
            meta_data.spec_version() == version,
    {
        PeerMetaData { address, version }
    }

    /// The address of the peer.
    pub fn address(&self) -> (address: PeerAddress)
        ensures
            address == self.spec_address(),
    {
        self.address
    }

    /// The protocol version that the peer reported.
    pub fn version(&self) -> (version: Version)
        ensures
            version == self.spec_version(),
    {
        self.version
    }
}

/// Two values are equal when they are about the same peer: when the
/// addresses are equal.  The versions are not compared.
impl PartialEq for PeerMetaData {
    fn eq(&self, other: &Self) -> (equal: bool) {
        self.address == other.address
    }
}

impl PartialEqSpecImpl for PeerMetaData {
    open spec fn obeys_eq_spec() -> bool {
        true
    }

    open spec fn eq_spec(&self, other: &Self) -> bool {
        self.spec_address() == other.spec_address()
    }
}

impl Eq for PeerMetaData {
}

} // verus!
