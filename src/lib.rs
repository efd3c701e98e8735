//! A note library's synchronisation engine and its supporting pieces.
//!
//! The engine replicates a directory of plain-text notes to a remote git
//! repository. Talking to the repository (fetch, push, checkout, object
//! writes) is disk and network work done by the caller; this crate holds the
//! decisions in between, each with a contract: which credentials to offer,
//! how to pull, how a rebase replays local commits, when a rejected push is
//! retried, and how the status and change list of a working tree are built.

mod text;
pub mod config;
pub mod error;
pub mod auth;
pub mod replay;
pub mod pull;
pub mod push;
pub mod changes;
pub mod history;
pub mod init;
pub mod sync;
pub mod utils;
pub mod storage;
pub mod models;
pub mod workspace;
