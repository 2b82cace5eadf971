//! A minimal WebSocket echo relay: the decisions it makes at startup, for
//! each accepted connection, and for each frame of a session.

pub mod config;
pub mod laws;
pub mod pipeline;
pub mod session;
pub mod startup;
