//! Command-dispatch and session-orchestration core of a launcher workflow
//! for a remote bookmarking service.
//!
//! The crate holds the decision logic of one invocation: validating the
//! launcher's environment signals, loading and merging the persisted
//! configuration, planning the session, dispatching one verb, and enforcing
//! the shared policies (refresh the local cache after a successful mutation,
//! map every failure into one closed error taxonomy). All input/output —
//! reading environment variables, talking to the remote service, writing
//! items back to the launcher — lives outside this crate and is driven by
//! the plans and follow-ups computed here.

pub mod cli;
pub mod config;
pub mod env_gate;
pub mod errors;
pub mod output;
pub mod runner;
