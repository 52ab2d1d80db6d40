//! Bridge between a synchronous, callback-driven overlay host and a
//! long-lived UI runtime that owns its own thread and native window.
//!
//! The host drives a plugin instance through six entry points; the worker
//! thread owns the UI runtime and is reached only through three one-way
//! channels (handshake, command, shutdown) and a process-wide registry.
//! This crate holds the verified core of that bridge: the configuration
//! rules, the channel protocol, the lifecycle state machine, the entry-point
//! failure containment, and the event wire format.

pub mod bridge;
pub mod channel;
pub mod command;
pub mod config;
pub mod events;
pub mod host;
pub mod host_api;
pub mod json;
pub mod music_player;
pub mod registry;
pub mod shim;
pub mod version;
