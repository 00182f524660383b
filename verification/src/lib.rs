//! Core of a call-session orchestrator for real-time audio/video calling.
//!
//! The crate manages the signaling lifecycle of a single one-to-one call, a
//! registry of concurrently active group-call clients, and a correlation
//! table for asynchronous peek and call-link requests.  All state lives in a
//! [`manager::CallManager`] value; platform glue delivers remote events and
//! local commands as plain values and forwards the emitted [`events::Event`]
//! sequence to its delegate in order.

pub mod events;
pub mod group;
pub mod group_ops;
pub mod laws;
pub mod manager;
pub mod requests;
pub mod ring;
pub mod session;
pub mod session_ops;
pub mod types;
