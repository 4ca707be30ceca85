//! Decision logic of a tool that mirrors every repository of a GitHub account to
//! local disk and restores working copies from such mirrors.
//!
//! Nothing in this crate touches the network, the file system or a child process.
//! Each function takes what a caller observed (a listing, whether a directory
//! exists, how a process ended) as plain values and returns what to do next, with a
//! contract that Verus proves. The caller performs the effects.

pub mod caching;
pub mod cli;
pub mod confirm;
pub mod exclude;
pub mod orchestrator;
pub mod repo;
pub mod restore;
pub mod transfer;
