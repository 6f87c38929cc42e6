//! The consensus rules that the node applies to a transaction before any
//! signature or proof is looked at.

pub mod check;
pub mod error;
