//! Decision logic of the registry update run.
//!
//! An update run loads a local deployment, resolves each configured network,
//! and then visits the networks one after another: it connects to the chain,
//! loads the deployment there, fetches the scraped and the on-chain registry
//! entries, computes their difference and uploads it. The outside work is done
//! by the caller; this crate decides which step comes next, when the run stops
//! and with which exit code, and how a failure is reported.

pub mod plan;
pub mod report;
pub mod run;
