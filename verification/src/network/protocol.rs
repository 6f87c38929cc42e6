//! The wire protocol: the types that messages are made of.

pub mod addr_v2;
pub mod bytes;
pub mod codec;
pub mod decoder_output;
pub mod inv;
pub mod message;
pub mod types;
