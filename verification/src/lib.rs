//! Room and session bookkeeping for a selective forwarding unit.
//!
//! The crate keeps the rooms of a media relay and the sessions that joined
//! them, decides the order of the calls that negotiate a new session, and
//! reclaims rooms that stayed empty for too long. Identifiers are the 128-bit
//! values of UUIDs, and time is a reading of a monotonic clock in seconds.

pub mod config;
pub mod engine;
pub mod laws;
pub mod model;
pub mod negotiation;
pub mod reclaim;
pub mod rooms;
pub mod sfu;
