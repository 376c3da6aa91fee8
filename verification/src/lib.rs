//! A link-provisioning engine: it validates a requested symbolic link, detects
//! a destination that is already there, merges that destination back into the
//! source on confirmation, creates the link and remembers the latest links.
//!
//! The engine touches no filesystem itself. It hands out one filesystem
//! request at a time and is told the reply; every decision in between is
//! made here. What a run of the engine does to a filesystem is stated, and
//! proved, over a model of one.

pub mod outcome;
pub mod protocol;
pub mod validator;
pub mod link;
pub mod merge;
pub mod history;
pub mod engine;
pub mod notice;
pub mod explorer;
pub mod world;
pub mod theorems;
