//! Verified lifecycle core for a binding to a native IP-intelligence engine.
//!
//! The engine itself is reached through a C ABI by the program that embeds this
//! library. Everything that is decided around those calls lives here, on plain
//! values: which arguments each call is handed under either calling convention,
//! how a reported status or length is read, how a property value is cut out of
//! the output buffer, and in which order manager and result objects may be torn
//! down. An address is a `usize`, with `0` for null.
#![allow(non_camel_case_types)]

pub mod bindings;
pub mod calls;
pub mod config;
pub mod encoding;
pub mod engine;
pub mod error;
pub mod extract;
pub mod results;
