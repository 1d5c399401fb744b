//! Verified core of a Git workflow assistant: the porcelain status
//! parser, the remote URL resolver, the branch-listing decoder, and the
//! sync and release flows as state machines with proved transition
//! contracts. Running external commands, prompting, and network calls
//! are the surrounding binary's business; this crate decides.

pub mod branch;
pub mod cli;
pub mod config;
pub mod remote;
pub mod status;
pub mod text;
pub mod workflow;
