//! A verified model of an interactive pseudo-terminal session protocol.
//!
//! The library holds the logic of driving a child process behind a PTY:
//! recognising marker substrings in the byte stream the child produces,
//! trimming consumed output, sequencing the session lifecycle so that
//! handles are only released after the child's exit is confirmed, caching
//! the terminal status so that waiting and killing can race safely, and
//! running the scripted echo round trip that exercises all of it.
//! The operating-system work itself (opening the PTY, spawning, reading,
//! writing, waiting) is done by an unverified shell around this crate,
//! which consults these types for every decision.

pub mod accumulator;
pub mod bytes;
pub mod child;
pub mod config;
pub mod errors;
pub mod reader;
pub mod script;
pub mod session;
pub mod state;
