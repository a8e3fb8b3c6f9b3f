//! The subscription store: subscribers and their confirmation tokens, kept
//! under the uniqueness rules of the persisted schema.

pub mod laws;
pub mod memory;
pub mod state;
