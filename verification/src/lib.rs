//! Synchronization engine for a single shared text document ("the clipboard").
//!
//! The engine keeps one bounded document and a set of live subscriber
//! connections consistent: any accepted write replaces the document and is
//! fanned out to every registered subscriber, while a per-connection
//! heartbeat state machine evicts subscribers that stop responding.
//!
//! The crate contains only the decision logic: the document store, the
//! connection registry, the subscriber session state machine, the broadcast
//! hub, and the request handlers. Transport, timers and configuration
//! sources live outside and drive these functions with plain values.
use vstd::prelude::*;

pub mod config;
pub mod document;
pub mod handlers;
pub mod hub;
pub mod registry;
pub mod session;

verus! {

/// Default maximum document size in bytes.
pub const DEFAULT_MAX_SIZE: usize = 100_000;

/// Default interval between liveness probes, in milliseconds.
pub const DEFAULT_HEARTBEAT_INTERVAL_MS: u64 = 5_000;

/// Default inactivity threshold after which a subscriber is evicted,
/// in milliseconds (twice the heartbeat interval).
pub const DEFAULT_CLIENT_TIMEOUT_MS: u64 = 10_000;

} // verus!
