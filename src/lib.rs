//! Library-browsing protocol spoken by networked media players: the binary
//! field codec, argument collections, message framing, request dispatch and
//! the per-client session and port-allocation decisions.

pub mod arguments;
pub mod broker;
pub mod buffer;
pub mod controller;
pub mod error;
pub mod field;
pub mod fixtures;
pub mod menu;
pub mod message;
pub mod session;
