//! The networks of Zcash and their upgrades.

use vstd::prelude::*;

use crate::chain::block;

verus! {

/// A Zcash network.
#[derive(Clone, Copy, Debug, PartialEq, Eq, Hash, Structural)]
pub enum Network {
    Mainnet,
    Testnet,
}

/// A change of the consensus rules that comes into force at a height.
#[derive(Clone, Copy, Debug, PartialEq, Eq, Hash, Structural)]
pub enum NetworkUpgrade {
    Genesis,
    BeforeOverwinter,
    Overwinter,
    Sapling,
    Blossom,
    Heartwood,
    Canopy,
}

/// The height at which `upgrade` comes into force on `network`.
pub open spec fn activation_height(network: Network, upgrade: NetworkUpgrade) -> u32 {
    match (network, upgrade) {
        (_, NetworkUpgrade::Genesis) => 0,
        (_, NetworkUpgrade::BeforeOverwinter) => 1,
        (Network::Mainnet, NetworkUpgrade::Overwinter) => 347_500,
        (Network::Mainnet, NetworkUpgrade::Sapling) => 419_200,
        (Network::Mainnet, NetworkUpgrade::Blossom) => 653_600,
        (Network::Mainnet, NetworkUpgrade::Heartwood) => 903_000,
        (Network::Mainnet, NetworkUpgrade::Canopy) => 1_046_400,
        (Network::Testnet, NetworkUpgrade::Overwinter) => 207_500,
        (Network::Testnet, NetworkUpgrade::Sapling) => 280_000,
        (Network::Testnet, NetworkUpgrade::Blossom) => 584_000,
        (Network::Testnet, NetworkUpgrade::Heartwood) => 903_800,
        (Network::Testnet, NetworkUpgrade::Canopy) => 1_028_500,
    }
}

/// The upgrade that is in force on `network` at `height`: the last one whose
/// activation height is not above `height`.
pub open spec fn current_upgrade(network: Network, height: block::Height) -> NetworkUpgrade {
    if height.0 >= activation_height(network, NetworkUpgrade::Canopy) {
        NetworkUpgrade::Canopy
    } else if height.0 >= activation_height(network, NetworkUpgrade::Heartwood) {
        NetworkUpgrade::Heartwood
    } else if height.0 >= activation_height(network, NetworkUpgrade::Blossom) {
        NetworkUpgrade::Blossom
    } else if height.0 >= activation_height(network, NetworkUpgrade::Sapling) {
        NetworkUpgrade::Sapling
    } else if height.0 >= activation_height(network, NetworkUpgrade::Overwinter) {
        NetworkUpgrade::Overwinter
    } else if height.0 >= 1 {
        NetworkUpgrade::BeforeOverwinter
    } else {
        NetworkUpgrade::Genesis
    }
}

impl NetworkUpgrade {
    /// The height at which the upgrade comes into force on `network`.
    pub fn activation_height(self, network: Network) -> (height: block::Height)
        ensures
            height.0 == activation_height(network, self),
    {
        let height: u32 = match (network, self) {
            (_, NetworkUpgrade::Genesis) => 0,
            (_, NetworkUpgrade::BeforeOverwinter) => 1,
            (Network::Mainnet, NetworkUpgrade::Overwinter) => 347_500,
            (Network::Mainnet, NetworkUpgrade::Sapling) => 419_200,
            (Network::Mainnet, NetworkUpgrade::Blossom) => 653_600,
            (Network::Mainnet, NetworkUpgrade::Heartwood) => 903_000,
            (Network::Mainnet, NetworkUpgrade::Canopy) => 1_046_400,
            (Network::Testnet, NetworkUpgrade::Overwinter) => 207_500,
            (Network::Testnet, NetworkUpgrade::Sapling) => 280_000,
            (Network::Testnet, NetworkUpgrade::Blossom) => 584_000,
            (Network::Testnet, NetworkUpgrade::Heartwood) => 903_800,
            (Network::Testnet, NetworkUpgrade::Canopy) => 1_028_500,
        };
        block::Height(height)
    }

    /// The upgrade that is in force on `network` at `height`.
    pub fn current(network: Network, height: block::Height) -> (upgrade: NetworkUpgrade)
        ensures
            upgrade == current_upgrade(network, height),
    {
        if height.0 >= NetworkUpgrade::Canopy.activation_height(network).0 {
            NetworkUpgrade::Canopy
        } else if height.0 >= NetworkUpgrade::Heartwood.activation_height(network).0 {
            NetworkUpgrade::Heartwood
        } else if height.0 >= NetworkUpgrade::Blossom.activation_height(network).0 {
            NetworkUpgrade::Blossom
        } else if height.0 >= NetworkUpgrade::Sapling.activation_height(network).0 {
            NetworkUpgrade::Sapling
        } else if height.0 >= NetworkUpgrade::Overwinter.activation_height(network).0 {
            NetworkUpgrade::Overwinter
        } else if height.0 >= 1 {
            NetworkUpgrade::BeforeOverwinter
        } else {
            NetworkUpgrade::Genesis
        }
    }
}

} // verus!
