//! The core of a local daemon that turns short natural-language requests
//! into shell commands: the wire protocol, the bounded per-session history,
//! the per-connection state machine, the slot that holds the active
//! backend, and the rules around configuration, service files and the
//! client.  Transport, files, processes and HTTP are left to the program
//! that drives this library.
pub mod client;
pub mod config;
pub mod handler;
pub mod protocol;
pub mod provider;
pub mod registry;
pub mod service;
pub mod session;
pub mod shell;
pub mod text;
