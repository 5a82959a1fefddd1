//! The session lifecycle.
//!
//! A session moves one way through its life: it is spawned, waits for the
//! readiness marker, alternates between being ready and executing a
//! command, then sees the child exit, is drained, and is closed. The
//! ordering that makes teardown safe — handles released only after the
//! exit is confirmed, the drain finished before the reader is joined — is
//! a consequence of which steps the relation below allows.

use vstd::prelude::*;

verus! {

/// Where a session stands in its life.
#[derive(Clone, Copy, Debug, PartialEq, Eq, Structural)]
pub enum SessionState {
    /// The child was just created; the reader is not yet attached.
    Spawning,
    /// Output is being read, but the readiness marker has not appeared.
    AwaitingReady,
    /// The readiness marker was observed; the session accepts commands.
    Ready,
    /// A command was sent; output is being drained until the marker
    /// reappears.
    Executing,
    /// The child's exit is confirmed and its status cached.
    Exited,
    /// Every chunk the child produced has been collected.
    Drained,
    /// All handles are released and the reader is joined.
    Closed,
}

/// The steps a session may take. Exit can interrupt any live phase; the
/// teardown steps each demand the one before them.
pub open spec fn step_allowed(pre: SessionState, post: SessionState) -> bool {
    ||| (pre is Spawning && post is AwaitingReady)
    ||| (pre is AwaitingReady && (post is AwaitingReady || post is Ready))
    ||| (pre is Ready && (post is Ready || post is Executing))
    ||| (pre is Executing && (post is Executing || post is Ready))
    ||| ((pre is AwaitingReady || pre is Ready || pre is Executing) && post is Exited)
    ||| (pre is Exited && post is Drained)
    ||| (pre is Drained && post is Closed)
}

/// How far through its life a session is; command execution and readiness
/// share a rung, since a session climbs between them freely.
pub open spec fn rank(s: SessionState) -> int {
    match s {
        SessionState::Spawning => 0,
        SessionState::AwaitingReady => 1,
        SessionState::Ready => 2,
        SessionState::Executing => 2,
        SessionState::Exited => 3,
        SessionState::Drained => 4,
        SessionState::Closed => 5,
    }
}

/// The life of a session runs one way: no allowed step moves it back, so
/// once the child has exited nothing returns the session to a phase in
/// which writing to it would be possible.
pub proof fn lemma_lifecycle_monotone(pre: SessionState, post: SessionState)
    requires
        step_allowed(pre, post),
    ensures
        rank(post) >= rank(pre),
{
}

/// Draining can only begin once the child's exit is confirmed: the one
/// ordering whose violation could lose buffered output or force the child
/// to terminate.
pub proof fn lemma_drain_only_after_exit(pre: SessionState, post: SessionState)
    requires
        step_allowed(pre, post),
        post is Drained,
    ensures
        pre is Exited,
{
}

/// The readiness handoff happens at most once: no allowed step re-enters
/// the waiting phase, so once a session has been handed to its caller as
/// ready it can never signal readiness a second time.
pub proof fn lemma_ready_handoff_once(pre: SessionState, post: SessionState)
    requires
        step_allowed(pre, post),
        post is AwaitingReady,
    ensures
        pre is AwaitingReady || pre is Spawning,
{
}

/// A closed session is terminal: no step leaves it.
pub proof fn lemma_closed_is_terminal(pre: SessionState, post: SessionState)
    requires
        step_allowed(pre, post),
    ensures
        pre !is Closed,
{
}

} // verus!
