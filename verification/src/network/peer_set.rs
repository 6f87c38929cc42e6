//! The set of the peers that the node is connected to.

pub mod inventory_registry;
pub mod limit;
pub mod peers;
pub mod ready_service;
pub mod set;
pub mod signals;
