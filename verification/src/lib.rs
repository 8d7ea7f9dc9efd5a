//! Core logic of a local SOCKS5 proxy that relays traffic over an
//! anonymizing overlay network.
//!
//! The library holds the verified parts: the shared application state,
//! the per-connection relay state machine with its destination policy,
//! the connection-identifier counter, the byte-relay model, the shutdown
//! poll, and the message-catalog lookup. The surrounding process
//! (sockets, the overlay client, files, logging) drives these functions
//! from plain Rust.

pub mod backend;
pub mod config;
pub mod i18n;
pub mod relay;
pub mod socks;
pub mod state;
pub mod text;
pub mod tor;
pub mod ui;
