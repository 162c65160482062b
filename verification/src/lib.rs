//! Commit-message automation over the staged changes of a git repository.
//!
//! The crate inspects the index of a repository, stages changes, renders the
//! staged delta as patch text and records a commit. The surrounding run
//! (credential, message generation, output) is sequenced by [`workflow`].

pub mod config;
pub mod diff;
mod engine;
pub mod error;
pub mod git;
pub mod identity;
pub mod runs;
pub mod status;
pub mod text;
pub mod workflow;
