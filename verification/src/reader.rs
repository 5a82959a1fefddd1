//! The byte stream reader's decision rule.
//!
//! The background reader blocks on a raw read and then must decide: a
//! read that returned bytes is data to forward; a read that returned
//! zero bytes is the end of the stream, terminal and expected; a failed
//! read is a fault, terminal and surfaced, because an error before the
//! end of the stream means the device went away abnormally. The read
//! itself is I/O and happens outside; this rule is what the loop does
//! with its outcome.

use vstd::prelude::*;

use crate::errors::SessionError;

verus! {

/// What one raw read amounted to.
#[derive(Clone, Copy, Debug, PartialEq, Eq, Structural)]
pub enum ReadClass {
    /// Bytes arrived: forward them and read again.
    Data,
    /// A zero-length read: the stream is over; stop without error.
    EndOfStream,
    /// The read failed: stop and surface the fault.
    Fault,
}

/// Classify a raw read from its byte count and error flag. Exactly one
/// class fits: a failure is a fault whatever the count; otherwise zero
/// bytes end the stream and anything else is data.
pub fn classify_read(n: usize, failed: bool) -> (r: ReadClass)
    ensures
        (r is Fault) == failed,
        !failed ==> (r is EndOfStream) == (n == 0),
        !failed ==> (r is Data) == (n > 0),
{
    if failed {
        ReadClass::Fault
    } else if n == 0 {
        ReadClass::EndOfStream
    } else {
        ReadClass::Data
    }
}

/// Whether the reader loop keeps running: only after data. Both other
/// classes are terminal, so the loop can never read past the end of the
/// stream or retry a fault.
pub fn reader_continues(r: &ReadClass) -> (c: bool)
    ensures
        c == (*r is Data),
{
    matches!(r, ReadClass::Data)
}

/// What the reader surfaces when it stops: a fault is an error, the end
/// of the stream is the expected terminal condition and no error at all,
/// and neither is ever swallowed or retried.
pub fn fault_error(r: &ReadClass) -> (e: Option<SessionError>)
    ensures
        (e is Some) == (*r is Fault),
        e matches Some(err) ==> err is IoFault,
{
    match r {
        ReadClass::Fault => Some(SessionError::IoFault),
        _ => None,
    }
}

} // verus!
