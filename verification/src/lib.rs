//! Real-time hub for a small self-hosted calendar server.
//!
//! The crate covers the subsystem with real concurrency and failure-handling
//! design: the background-task supervisor and the connection/broadcast hub
//! that back the live-update websocket channel, together with the wire
//! protocol spoken over it and the small decision procedures (configuration
//! loading, authentication bookkeeping, permission storage) that the
//! surrounding server hands plain values to.

pub mod auth;
pub mod codec;
pub mod config;
pub mod hub;
pub mod netaddr;
pub mod permissions;
pub mod registry;
pub mod session;
pub mod supervisor;

use vstd::prelude::*;

verus! {

} // verus!
