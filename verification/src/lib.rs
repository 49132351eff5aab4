//! A small ICE-lite signaling and session-transport library.
//!
//! The crate answers one SDP offer per session, advertises a single host
//! candidate built from the address the process actually bound, and drives
//! the per-session engine loop: it decides, for every engine output, whether
//! to send a datagram, wait on the socket with a positive timeout, feed a
//! synthetic deadline-elapsed input, or finish the session.

pub mod addr;
pub mod config;
pub mod engine;
pub mod session;
pub mod signal;
