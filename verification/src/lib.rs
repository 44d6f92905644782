//! Core of a point-to-point reliable file-transfer protocol over an ordered
//! byte stream: wire framing for the three primitives (fixed-width integers,
//! length-prefixed strings, raw chunks), a rolling integrity digest, progress
//! accounting, and the sender/receiver session state machines with their
//! final verification handshake.

pub mod codec;
pub mod config;
pub mod digest;
pub mod display;
pub mod error;
pub mod progress;
pub mod relay;
pub mod session;
