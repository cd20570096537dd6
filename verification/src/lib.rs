//! Orchestration library for a cluster of consensus node processes.
//!
//! The library models the process-control logic of a small blockchain test
//! network: a prompt-synchronized console session protocol, node identities
//! and peer topology, the startup / peering / mining state machine, and a
//! deadline-bound transaction load test. All process and file I/O lives
//! outside the library; the library computes commands, checks responses and
//! keeps the cluster model consistent.

use vstd::prelude::*;

pub mod cluster;
pub mod config;
pub mod init;
pub mod orchestrator;
pub mod session;
pub mod tee;
pub mod text;

verus! {

/// Name of the test network; the genesis file is named after it.
pub const NETWORK: &'static str = "auto_test";

/// Fixed network id passed to every node process.
pub const NETWORK_ID: u64 = 666;

/// Base listening port; node `id` listens on `PORT_BASE + id`.
pub const PORT_BASE: usize = 3000;

} // verus!
