//! The answers of the node to the requests of wallets and other tools.

pub mod methods;
