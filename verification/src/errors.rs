//! The session's error taxonomy.
//!
//! Every fatal condition of a session is one of these values; a fatal error
//! ends the session, and sessions are single use — there is no retry inside
//! the library.

use vstd::prelude::*;

verus! {

/// Why a session operation failed.
#[derive(Clone, Copy, Debug, PartialEq, Eq, Structural)]
pub enum SessionError {
    /// The terminal provider or the process creation failed; fatal, no
    /// retry.
    Spawn,
    /// The readiness marker was not observed within the configured bound;
    /// fatal to this session, a caller may retry with a fresh one.
    ReadyTimeout,
    /// A read or write failed before the end of the stream; fatal and
    /// surfaced at once, never silently retried, because an error here
    /// means a broken invariant, not a recoverable condition.
    IoFault,
    /// A termination request failed; surfaced, but a later wait may still
    /// succeed if the child was already exiting.
    Kill,
    /// Draining or joining during shutdown failed; best effort — output
    /// already delivered is not retracted.
    Shutdown,
}

impl SessionError {
    /// A short, fixed description of the failure, for reporting.
    pub fn describe(&self) -> (r: &'static str) {
        match self {
            SessionError::Spawn => "spawning the child behind the terminal failed",
            SessionError::ReadyTimeout => "the readiness marker was not observed in time",
            SessionError::IoFault => "a read or write failed before the end of the stream",
            SessionError::Kill => "the termination request failed",
            SessionError::Shutdown => "draining or joining during shutdown failed",
        }
    }
}

} // verus!
