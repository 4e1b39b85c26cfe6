//! Core of a client library that multiplexes application-level work across a
//! fleet of remote audio-streaming nodes. Each node is owned by a single
//! supervisor (the node manager); a registry routes per-tenant work to exactly
//! one node. This crate holds the verified core: the data model, the manager
//! state machine, the fleet registry with its unique-ownership invariant, the
//! session-gated request builders and the text codecs. The asynchronous shell
//! (sockets, HTTP, task plumbing) lives outside and drives these functions.

pub mod anchorage;
pub mod channel;
pub mod error;
pub mod laws;
pub mod manager;
pub mod model;
pub mod player;
pub mod rest;
pub mod text;
