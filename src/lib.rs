//! Client-side session engine for a length-prefixed binary database wire
//! protocol: handshake frames, request handles, the pending-request table
//! and the dispatch of response frames.

pub mod error;
pub mod wire;
pub mod config;
pub mod handshake;
pub mod invocation;
pub mod session;
