//! Verified core of a chat-channel message purge tool.
//!
//! The library models the fetch/filter/delete control loop of a bulk message
//! deleter as an event-driven state machine, together with the message filter
//! predicate and the output-record format. All remote I/O (HTTP calls, sleeps,
//! file writes) is performed by an unverified driver that executes the actions
//! this library decides on and feeds the outcomes back as events.

pub mod engine;
pub mod filter;
pub mod models;
pub mod record;
pub mod text;
