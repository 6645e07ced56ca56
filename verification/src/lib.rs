//! Verified core of the kvlr RPC framework and of its `aren` binary encoding.
//!
//! The asynchronous plumbing (sockets, TLS, tasks, channels) lives in the
//! companion crate under `app/`; everything that decides what goes on the wire
//! and how received bytes are interpreted is here, with its contract.

pub mod buf;
pub mod traits;
pub mod dynint;
pub mod fixed_int;
pub mod scalar;
pub mod stdlib;
pub mod byte_array;
pub mod string;
pub mod wire;
pub mod rpc;
pub mod pipelining;
pub mod frame;
pub mod connection;
pub mod registry;
pub mod streaming;
pub mod requests;
pub mod auth;
pub mod console;
