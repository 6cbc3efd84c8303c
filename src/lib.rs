//! Connection and session logic of a desktop log viewer that streams log
//! records from a remote log server.
//!
//! The I/O itself (connecting, remote calls, reading a stream, sleeping) is
//! performed by the host program; this library decides, for each state, what
//! must happen next and what comes of each outcome.

pub mod status;
pub mod session;
pub mod laws;
pub mod views;
pub mod relay;
pub mod app_state;
pub mod filter;

