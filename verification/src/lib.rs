//! A small verified core for two tiny network services: an HTTP responder
//! that answers every request with a fixed response while logging request
//! headers, and a TCP echo service that copies inbound bytes back to each
//! client.
//!
//! The crate verifies the decision logic of both services: configuration
//! loading with defaults, header-log construction, response construction,
//! and the per-connection echo state machine. The surrounding I/O (sockets,
//! the async runtime, log output) lives outside this crate and drives these
//! functions with plain values.

pub mod config;
pub mod echo;
pub mod http;
