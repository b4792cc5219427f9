//! State-management core of a conversational agent.
//!
//! The crate keeps one conversation as an append-only, content-addressed
//! chain of entries with a mutable head pointer, guards completion
//! generation with a single-flight lock and a deferred-reply protocol,
//! and drives the tool-use continuation state machine that repeatedly
//! asks a completion provider for output, routes requested tool calls,
//! and re-enters completion until the turn ends.
//!
//! The core is a pure state machine: every outside effect (store writes,
//! provider and tool-server round trips, channel sends) is returned to
//! the caller as a value describing the work to perform, and the outcome
//! is handed back in through a later call. A host harness performs the
//! effects; the decisions are verified here.

pub mod entry;
pub mod errors;
pub mod laws;
pub mod orchestrator;
pub mod protocol;
pub mod proxy;
pub mod settings;
pub mod state;
pub mod types;
pub mod utils;
