//! Deployment of pre-built system configurations to a fleet of remote hosts.
//!
//! A run takes a selection of host names, each paired with an already-built
//! artifact and an optional connection descriptor, and brings every reachable
//! host to a requested activation state. Hosts without a usable connection
//! are diverted to a skip set; the rest become independent per-host pipelines
//! (transfer, then activation unless the goal is copy-only) that run under a
//! configurable concurrency ceiling. Per-host failures are isolated: one
//! host's failure never changes another host's outcome.

pub mod aggregate;
pub mod assemble;
pub mod deploy;
pub mod error;
pub mod executor;
pub mod goal;
pub mod options;
pub mod progress;
pub mod state;
pub mod tally;
pub mod task;
