//! One peer: the errors of its connection, the state of the connection, and
//! the handle through which the rest of the node talks to it.

pub mod client;
pub mod connection;
pub mod error;
pub mod handshake;
pub mod meta_data;
