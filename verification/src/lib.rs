//! Core of a local static-file HTTP server with a controllable lifecycle.
//!
//! A caller picks a directory; the server publishes its contents over HTTP on
//! a fixed loopback port and can be stopped and restarted with a different
//! directory. This crate holds the verified core: deciding whether a natural
//! `index.html` exists, building the synthetic directory-listing page, and the
//! lifecycle state machine that makes start/stop misuse a checkable condition.
//! The surrounding shell (filesystem walking, the HTTP listener, the UI) feeds
//! this core plain values and carries out the actions it decides on.

pub mod lifecycle;
pub mod listing;
pub mod server;
