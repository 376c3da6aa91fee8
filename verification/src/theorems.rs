//! What holds of every run of the engine on the model of the filesystem.

pub mod invariants;
pub mod merges;
pub mod requests;
