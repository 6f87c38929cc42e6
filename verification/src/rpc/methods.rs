//! The remote procedures that the node offers, as far as they compute.

use vstd::prelude::*;

verus! {

/// The answer to `getinfo`.
#[derive(Clone, Debug, PartialEq, Eq)]
pub struct GetInfo {
    /// The version of the application.
    pub build: String,
    /// The name under which the node introduces itself to its peers.
    pub subversion: String,
}

/// The answer to `getblockchaininfo`.
#[derive(Clone, Debug, PartialEq, Eq)]
pub struct GetBlockChainInfo {
    /// The name of the chain.
    pub chain: String,
}

/// The answer to `sendrawtransaction`: the hash of the transaction in hexadecimal.
#[derive(Clone, Debug, PartialEq, Eq)]
pub struct SentTransactionHash(pub String);

/// The answer to `getinfo` of an application of the version `app_version`
/// that introduces itself as `user_agent`.
pub fn get_info(app_version: String, user_agent: String) -> (info: GetInfo)
    ensures
        info.build == app_version,
        info.subversion == user_agent,
{
    GetInfo { build: app_version, subversion: user_agent }
}

} // verus!
