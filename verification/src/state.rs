//! What the state engine tells the network layer: the height of the best chain tip.

pub mod best_tip_height;
pub mod best_tip_height_receiver;
