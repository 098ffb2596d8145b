//! Decision logic and message rendering for a client of a notification stream.
//!
//! The client subscribes to the changes of one resource, opens a duplex stream,
//! announces its streaming group, and then prints and acknowledges every batch
//! of notifications it receives. This crate holds what the client decides,
//! what it prints, and the token it appends to the metadata of each request;
//! connecting, sending and receiving are left to the caller.

pub mod decimal;
pub mod kinds;
pub mod timestamp;
pub mod message;
pub mod render;
pub mod session;
pub mod interceptor;
