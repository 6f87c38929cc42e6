//! Small types of the wire protocol.

use vstd::prelude::*;

use crate::chain::block;
use crate::chain::parameters::{current_upgrade, Network, NetworkUpgrade};

verus! {

/// The version of the peer protocol that a node speaks.
#[derive(Clone, Copy, Debug, PartialEq, Eq, Hash, PartialOrd, Ord, Structural)]
pub struct Version(pub u32);

/// The version of the peer protocol that this node speaks.
pub const CURRENT_NETWORK_PROTOCOL_VERSION: u32 = 170_013;

/// The lowest protocol version that the rules of `upgrade` ask of a peer on `network`.
pub open spec fn min_specified_for_upgrade(network: Network, upgrade: NetworkUpgrade) -> u32 {
    match (network, upgrade) {
        (_, NetworkUpgrade::Genesis) => 170_002,
        (_, NetworkUpgrade::BeforeOverwinter) => 170_002,
        (Network::Testnet, NetworkUpgrade::Overwinter) => 170_003,
        (Network::Mainnet, NetworkUpgrade::Overwinter) => 170_005,
        (_, NetworkUpgrade::Sapling) => 170_007,
        (Network::Testnet, NetworkUpgrade::Blossom) => 170_008,
        (Network::Mainnet, NetworkUpgrade::Blossom) => 170_009,
        (Network::Testnet, NetworkUpgrade::Heartwood) => 170_010,
        (Network::Mainnet, NetworkUpgrade::Heartwood) => 170_011,
        (Network::Testnet, NetworkUpgrade::Canopy) => 170_012,
        (Network::Mainnet, NetworkUpgrade::Canopy) => 170_013,
    }
}

/// The lowest protocol version that this node accepts from a peer on
/// `network` when the best chain tip is at `height`; with no tip yet, the
/// height of the genesis block counts.  The version that Canopy asks for is
/// asked for at any height.
pub open spec fn min_remote_version(network: Network, height: Option<block::Height>) -> u32 {
    let height = match height {
        Some(height) => height,
        None => block::Height(0),
    };
    let specified = min_specified_for_upgrade(network, current_upgrade(network, height));
    let initial = min_specified_for_upgrade(network, NetworkUpgrade::Canopy);
    if specified > initial {
        specified
    } else {
        initial
    }
}

impl Version {
    /// The lowest protocol version that the rules of `upgrade` ask of a peer on `network`.
    pub fn min_specified_for_upgrade(network: Network, upgrade: NetworkUpgrade) -> (version: Version)
        ensures
            version.0 == min_specified_for_upgrade(network, upgrade),
    {
        let version: u32 = match (network, upgrade) {
            (_, NetworkUpgrade::Genesis) => 170_002,
            (_, NetworkUpgrade::BeforeOverwinter) => 170_002,
            (Network::Testnet, NetworkUpgrade::Overwinter) => 170_003,
            (Network::Mainnet, NetworkUpgrade::Overwinter) => 170_005,
            (_, NetworkUpgrade::Sapling) => 170_007,
            (Network::Testnet, NetworkUpgrade::Blossom) => 170_008,
            (Network::Mainnet, NetworkUpgrade::Blossom) => 170_009,
            (Network::Testnet, NetworkUpgrade::Heartwood) => 170_010,
            (Network::Mainnet, NetworkUpgrade::Heartwood) => 170_011,
            (Network::Testnet, NetworkUpgrade::Canopy) => 170_012,
            (Network::Mainnet, NetworkUpgrade::Canopy) => 170_013,
        };
        Version(version)
    }

    /// The lowest protocol version that this node accepts from a peer on
    /// `network` when the best chain tip is at `height`.
    pub fn min_remote_for_height(network: Network, height: Option<block::Height>) -> (version: Version)
        ensures
            version.0 == min_remote_version(network, height),
    {
        let height = match height {
            Some(height) => height,
            None => block::Height(0),
        };
        let specified = Version::min_specified_for_upgrade(network, NetworkUpgrade::current(network, height));
        let initial = Version::min_specified_for_upgrade(network, NetworkUpgrade::Canopy);
        if specified.0 > initial.0 {
            specified
        } else {
            initial
        }
    }
}

/// A number that is used once: in a ping, or to tell a connection to oneself.
#[derive(Clone, Copy, Debug, PartialEq, Eq, Hash, Structural)]
pub struct Nonce(pub u64);

/// The services that a node says it offers, as a field of 64 bits.
#[derive(Clone, Copy, Debug, PartialEq, Eq, Hash, Structural)]
pub struct PeerServices {
    pub bits: u64,
}

/// The bit that says that a node serves the whole chain.
pub const NODE_NETWORK_BIT: u64 = 1;

impl PeerServices {
    /// No service.
    pub fn empty() -> (services: Self)
        ensures
            services.bits == 0,
    {
        PeerServices { bits: 0 }
    }

    /// The service of a full node.
    pub fn node_network() -> (services: Self)
        ensures
            services.bits == NODE_NETWORK_BIT,
    {
        PeerServices { bits: NODE_NETWORK_BIT }
    }

    /// The services that `bits` names, where the bits that name no known
    /// service are dropped.
    pub fn from_bits_truncate(bits: u64) -> (services: Self)
        ensures
            services.bits == bits & NODE_NETWORK_BIT,
    {
        PeerServices { bits: bits & NODE_NETWORK_BIT }
    }
}

impl Default for PeerServices {
    fn default() -> (services: Self)
        ensures
            services.bits == 0,
    {
        PeerServices { bits: 0 }
    }
}

} // verus!
