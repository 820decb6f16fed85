//! Gamepad state aggregation for a remote-control publisher.
//!
//! The library keeps one accumulated record per gamepad, merges two update
//! channels into it — discrete input events and direct state polls — and
//! drives the per-tick cycle that stamps a publish time on the snapshot.
//! Device discovery, transport, and wire encoding live outside the library
//! and hand it plain values.

pub mod input;
pub mod gamepad;
pub mod snapshot;
pub mod laws;
