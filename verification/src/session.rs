//! The session controller's verified core.
//!
//! A `ShellSession` is the model of one interactive child: its lifecycle
//! state, the accumulator of output not yet consumed by a marker, the
//! full transcript of everything the reader forwarded, and the cached
//! terminal status. The unverified shell around the library performs the
//! reads, writes, waits and kills, and reports each outcome here; every
//! decision — is the session ready, may a command be sent, may handles
//! be released, what status does a second wait see — is taken and proved
//! in this module.

use vstd::prelude::*;

use crate::accumulator::Accumulator;
use crate::bytes::after_fire;
use crate::bytes::append_bytes;
use crate::bytes::concat_of;
use crate::bytes::contains;
use crate::bytes::contains_seq;
use crate::bytes::copy_range;
use crate::bytes::count_matches;
use crate::bytes::fired_segment;
use crate::bytes::lemma_concat_push;
use crate::bytes::lemma_contains_prefix;
use crate::child::ChildEvent;
use crate::child::ChildGate;
use crate::child::ExitStatus;
use crate::errors::SessionError;
use crate::state::step_allowed;
use crate::state::SessionState;

verus! {

/// The line actually sent for a command: its text followed by the
/// platform's line terminator, nothing else.
pub fn encode_line(text: &Vec<u8>, newline: &Vec<u8>) -> (line: Vec<u8>)
    ensures
        line@ == text@ + newline@,
{
    let mut line: Vec<u8> = Vec::new();
    append_bytes(&mut line, text);
    append_bytes(&mut line, newline);
    proof {
        assert(line@ =~= text@ + newline@);
    }
    line
}

/// Collect queued chunks in arrival order until one completes an
/// occurrence of `marker`, or until they run out. Nothing is skipped and
/// nothing is reordered: the collected output is exactly the
/// concatenation of the chunks taken, so if the marker stands anywhere
/// in the queued output, it is found.
pub fn drain_until_marker(chunks: &Vec<Vec<u8>>, marker: &Vec<u8>) -> (r: (bool, usize, Vec<u8>))
    requires
        marker@.len() > 0,
    ensures
        r.1 <= chunks@.len(),
        r.2@ == concat_of(chunks@.subrange(0, r.1 as int)),
        r.0 ==> contains_seq(r.2@, marker@),
        r.0 ==> r.1 > 0 && !contains_seq(concat_of(chunks@.subrange(0, r.1 - 1)), marker@),
        !r.0 ==> r.1 == chunks@.len() && !contains_seq(r.2@, marker@),
        contains_seq(concat_of(chunks@), marker@) ==> r.0,
{
    let mut out: Vec<u8> = Vec::new();
    let mut i: usize = 0;
    proof {
        assert(out@ =~= concat_of(chunks@.subrange(0, 0)));
        assert(!contains_seq(out@, marker@));
    }
    while i < chunks.len()
        invariant
            marker@.len() > 0,
            0 <= i <= chunks@.len(),
            out@ == concat_of(chunks@.subrange(0, i as int)),
            !contains_seq(out@, marker@),
        decreases chunks@.len() - i,
    {
        let ghost before = out@;
        append_bytes(&mut out, &chunks[i]);
        i += 1;
        proof {
            assert(chunks@.subrange(0, i as int) =~= chunks@.subrange(0, i - 1).push(
                chunks@[i - 1],
            ));
            lemma_concat_push(chunks@.subrange(0, i - 1), chunks@[i - 1]);
        }
        if contains(&out, marker) {
            proof {
                assert(!contains_seq(before, marker@));
            }
            return (true, i, out);
        }
    }
    proof {
        assert(chunks@.subrange(0, chunks@.len() as int) =~= chunks@);
    }
    (false, i, out)
}

/// The model of one interactive child session.
pub struct ShellSession {
    state: SessionState,
    ready_marker: Vec<u8>,
    acc: Accumulator,
    transcript: Vec<u8>,
    gate: ChildGate,
}

impl ShellSession {
    /// Where the session stands in its life.
    pub closed spec fn state_spec(&self) -> SessionState {
        self.state
    }

    /// The readiness marker the session watches for.
    pub closed spec fn marker_spec(&self) -> Seq<u8> {
        self.ready_marker@
    }

    /// Output not yet consumed by a marker match.
    pub closed spec fn pending_spec(&self) -> Seq<u8> {
        self.acc@
    }

    /// Everything the reader has forwarded, in arrival order.
    pub closed spec fn transcript_spec(&self) -> Seq<u8> {
        self.transcript@
    }

    /// The record of the child's fate.
    pub closed spec fn gate_spec(&self) -> ChildGate {
        self.gate
    }

    /// The session's invariant. Before readiness nothing has been
    /// consumed, and the marker has not appeared — were it in the
    /// transcript the session would already be ready. From readiness on,
    /// the transcript is known to hold the marker; and a session in a
    /// teardown phase has the child's exit on record.
    pub open spec fn wf(&self) -> bool {
        &&& self.marker_spec().len() > 0
        &&& self.state_spec() is Spawning ==> {
            &&& self.transcript_spec().len() == 0
            &&& self.pending_spec().len() == 0
        }
        &&& self.state_spec() is AwaitingReady ==> {
            &&& self.pending_spec() == self.transcript_spec()
            &&& !contains_seq(self.transcript_spec(), self.marker_spec())
        }
        &&& (self.state_spec() is Ready || self.state_spec() is Executing) ==> contains_seq(
            self.transcript_spec(),
            self.marker_spec(),
        )
        &&& (self.state_spec() is Exited || self.state_spec() is Drained
            || self.state_spec() is Closed) ==> self.gate_spec().exited()
    }

    /// A session for a child that was just spawned. The readiness marker
    /// is the one spawn parameter the protocol itself validates: an empty
    /// marker would make readiness meaningless, so it is refused as a
    /// spawn failure.
    pub fn new(ready_marker: Vec<u8>) -> (r: Result<ShellSession, SessionError>)
        ensures
            (r is Ok) == (ready_marker@.len() > 0),
            r matches Ok(s) ==> {
                &&& s.wf()
                &&& s.state_spec() is Spawning
                &&& s.marker_spec() == ready_marker@
                &&& s.transcript_spec().len() == 0
                &&& s.pending_spec().len() == 0
                &&& !s.gate_spec().exited()
                &&& !s.gate_spec().kill_was_requested()
            },
            r matches Err(e) ==> e is Spawn,
    {
        if ready_marker.len() == 0 {
            return Err(SessionError::Spawn);
        }
        Ok(
            ShellSession {
                state: SessionState::Spawning,
                ready_marker,
                acc: Accumulator::new(),
                transcript: Vec::new(),
                gate: ChildGate::new(),
            },
        )
    }

    /// The background reader is attached and running: the session now
    /// waits for the readiness marker.
    pub fn reader_attached(&mut self)
        requires
            old(self).wf(),
            old(self).state_spec() is Spawning,
        ensures
            final(self).wf(),
            final(self).state_spec() is AwaitingReady,
            step_allowed(old(self).state_spec(), final(self).state_spec()),
            final(self).marker_spec() == old(self).marker_spec(),
            final(self).transcript_spec() == old(self).transcript_spec(),
            final(self).pending_spec() == old(self).pending_spec(),
            final(self).gate_spec() == old(self).gate_spec(),
    {
        self.state = SessionState::AwaitingReady;
        proof {
            assert(self.pending_spec() =~= self.transcript_spec());
        }
    }

    /// One chunk arrived from the reader. The transcript records it
    /// verbatim; the accumulator decides whether a marker transition
    /// fires. Waiting for readiness, the first appearance of the marker
    /// makes the session ready; executing a command, the marker's
    /// reappearance means the command finished and the session is ready
    /// again. The returned flag reports exactly that transition.
    pub fn on_chunk(&mut self, chunk: &Vec<u8>) -> (became_ready: bool)
        requires
            old(self).wf(),
            old(self).state_spec() is AwaitingReady || old(self).state_spec() is Ready
                || old(self).state_spec() is Executing,
        ensures
            final(self).wf(),
            step_allowed(old(self).state_spec(), final(self).state_spec()),
            final(self).marker_spec() == old(self).marker_spec(),
            final(self).gate_spec() == old(self).gate_spec(),
            final(self).transcript_spec() == old(self).transcript_spec() + chunk@,
            old(self).state_spec() is AwaitingReady ==> {
                let grown = old(self).transcript_spec() + chunk@;
                let m = old(self).marker_spec();
                &&& became_ready == contains_seq(grown, m)
                &&& if contains_seq(grown, m) {
                    &&& final(self).state_spec() is Ready
                    &&& final(self).pending_spec() == after_fire(grown, m)
                    &&& count_matches(fired_segment(grown, m), m) == 1
                } else {
                    &&& final(self).state_spec() is AwaitingReady
                    &&& final(self).pending_spec() == grown
                }
            },
            old(self).state_spec() is Ready ==> {
                &&& !became_ready
                &&& final(self).state_spec() is Ready
                &&& final(self).pending_spec() == old(self).pending_spec() + chunk@
            },
            old(self).state_spec() is Executing ==> {
                let grown = old(self).pending_spec() + chunk@;
                let m = old(self).marker_spec();
                &&& became_ready == contains_seq(grown, m)
                &&& if contains_seq(grown, m) {
                    &&& final(self).state_spec() is Ready
                    &&& final(self).pending_spec() == after_fire(grown, m)
                    &&& count_matches(fired_segment(grown, m), m) == 1
                } else {
                    &&& final(self).state_spec() is Executing
                    &&& final(self).pending_spec() == grown
                }
            },
    {
        append_bytes(&mut self.transcript, chunk);
        let _ = self.acc.feed(chunk);
        match self.state {
            SessionState::AwaitingReady => {
                if self.acc.contains_marker(&self.ready_marker) {
                    let _ = self.acc.consume_through(&self.ready_marker);
                    self.state = SessionState::Ready;
                    true
                } else {
                    false
                }
            },
            SessionState::Ready => {
                proof {
                    lemma_contains_prefix(old(self).transcript_spec(), chunk@, self.marker_spec());
                }
                false
            },
            SessionState::Executing => {
                if self.acc.contains_marker(&self.ready_marker) {
                    let _ = self.acc.consume_through(&self.ready_marker);
                    self.state = SessionState::Ready;
                    proof {
                        lemma_contains_prefix(
                            old(self).transcript_spec(),
                            chunk@,
                            self.marker_spec(),
                        );
                    }
                    true
                } else {
                    proof {
                        lemma_contains_prefix(
                            old(self).transcript_spec(),
                            chunk@,
                            self.marker_spec(),
                        );
                    }
                    false
                }
            },
            _ => {
                proof {
                    assert(false);
                }
                false
            },
        }
    }

    /// Feed queued chunks until the readiness marker is observed. The
    /// chunk queue is the bounded wait: either the session becomes ready
    /// on one of the queued chunks — and its recorded output then holds
    /// the marker — or the queue runs out and the wait has timed out,
    /// and the marker is in none of the output seen so far.
    pub fn await_ready(&mut self, chunks: &Vec<Vec<u8>>) -> (r: Result<usize, SessionError>)
        requires
            old(self).wf(),
            old(self).state_spec() is AwaitingReady,
        ensures
            final(self).wf(),
            final(self).marker_spec() == old(self).marker_spec(),
            final(self).gate_spec() == old(self).gate_spec(),
            r matches Ok(k) ==> {
                &&& 0 < k <= chunks@.len()
                &&& final(self).state_spec() is Ready
                &&& final(self).transcript_spec() == old(self).transcript_spec() + concat_of(
                    chunks@.subrange(0, k as int),
                )
                &&& contains_seq(final(self).transcript_spec(), final(self).marker_spec())
                &&& !contains_seq(
                    old(self).transcript_spec() + concat_of(chunks@.subrange(0, k - 1)),
                    old(self).marker_spec(),
                )
            },
            r matches Err(e) ==> {
                &&& e is ReadyTimeout
                &&& final(self).state_spec() is AwaitingReady
                &&& final(self).transcript_spec() == old(self).transcript_spec() + concat_of(
                    chunks@,
                )
                &&& !contains_seq(final(self).transcript_spec(), final(self).marker_spec())
            },
    {
        let mut i: usize = 0;
        proof {
            assert(self.transcript_spec() =~= old(self).transcript_spec() + concat_of(
                chunks@.subrange(0, 0),
            ));
        }
        while i < chunks.len()
            invariant
                old(self).wf(),
                self.wf(),
                self.state_spec() is AwaitingReady,
                0 <= i <= chunks@.len(),
                self.transcript_spec() == old(self).transcript_spec() + concat_of(
                    chunks@.subrange(0, i as int),
                ),
                self.marker_spec() == old(self).marker_spec(),
                self.gate_spec() == old(self).gate_spec(),
            decreases chunks@.len() - i,
        {
            proof {
                assert(!contains_seq(self.transcript_spec(), self.marker_spec()));
            }
            let ghost before = self.transcript_spec();
            let became_ready = self.on_chunk(&chunks[i]);
            i += 1;
            proof {
                assert(chunks@.subrange(0, i as int) =~= chunks@.subrange(0, i - 1).push(
                    chunks@[i - 1],
                ));
                lemma_concat_push(chunks@.subrange(0, i - 1), chunks@[i - 1]);
            }
            if became_ready {
                proof {
                    assert(before == old(self).transcript_spec() + concat_of(
                        chunks@.subrange(0, i - 1),
                    ));
                }
                return Ok(i);
            }
        }
        proof {
            assert(chunks@.subrange(0, chunks@.len() as int) =~= chunks@);
        }
        Err(SessionError::ReadyTimeout)
    }

    /// A command line is about to be written: the session leaves
    /// readiness and executes until the marker reappears. The write
    /// itself happens outside; if it fails, the session is abandoned with
    /// a fault, never reused.
    pub fn begin_command(&mut self)
        requires
            old(self).wf(),
            old(self).state_spec() is Ready,
        ensures
            final(self).wf(),
            final(self).state_spec() is Executing,
            step_allowed(old(self).state_spec(), final(self).state_spec()),
            final(self).marker_spec() == old(self).marker_spec(),
            final(self).transcript_spec() == old(self).transcript_spec(),
            final(self).pending_spec() == old(self).pending_spec(),
            final(self).gate_spec() == old(self).gate_spec(),
    {
        self.state = SessionState::Executing;
    }

    /// The child's exit was observed with status `st`: record it and move
    /// to the exited phase. Only after this may handles be released or
    /// the drain begin. A duplicate observation is absorbed; the first
    /// recorded status stands.
    pub fn note_exit(&mut self, st: ExitStatus) -> (recorded: bool)
        requires
            old(self).wf(),
            old(self).state_spec() is AwaitingReady || old(self).state_spec() is Ready
                || old(self).state_spec() is Executing,
        ensures
            final(self).wf(),
            final(self).state_spec() is Exited,
            step_allowed(old(self).state_spec(), final(self).state_spec()),
            final(self).marker_spec() == old(self).marker_spec(),
            final(self).transcript_spec() == old(self).transcript_spec(),
            final(self).pending_spec() == old(self).pending_spec(),
            final(self).gate_spec() == old(self).gate_spec().apply_event(ChildEvent::Exited(st)),
            final(self).gate_spec().exited(),
            recorded == !old(self).gate_spec().exited(),
            recorded ==> final(self).gate_spec().status_spec() == st,
    {
        let recorded = self.gate.record_exit(st);
        self.state = SessionState::Exited;
        recorded
    }

    /// Ask for the child's termination. Callable from any phase and at
    /// any time, also concurrently with a wait: it never blocks, never
    /// changes the lifecycle, and never touches a recorded status.
    pub fn request_kill(&mut self) -> (already_exited: bool)
        requires
            old(self).wf(),
        ensures
            final(self).wf(),
            final(self).state_spec() == old(self).state_spec(),
            final(self).marker_spec() == old(self).marker_spec(),
            final(self).transcript_spec() == old(self).transcript_spec(),
            final(self).pending_spec() == old(self).pending_spec(),
            final(self).gate_spec() == old(self).gate_spec().apply_event(
                ChildEvent::KillRequested,
            ),
            final(self).gate_spec().status_opt() == old(self).gate_spec().status_opt(),
            already_exited == old(self).gate_spec().exited(),
    {
        self.gate.request_kill()
    }

    /// The cached terminal status. Any number of reads, from any phase
    /// that has the exit on record, observe the same value.
    pub fn wait_status(&self) -> (r: ExitStatus)
        requires
            self.wf(),
            self.gate_spec().exited(),
        ensures
            r == self.gate_spec().status_spec(),
    {
        self.gate.wait_cached()
    }

    /// Drain the chunks still queued after the confirmed exit. Every one
    /// of them enters the transcript, in order — the tail of output is
    /// never lost — and the returned bytes are the complete transcript of
    /// the session.
    pub fn shutdown(&mut self, remaining: &Vec<Vec<u8>>) -> (out: Vec<u8>)
        requires
            old(self).wf(),
            old(self).state_spec() is Exited,
        ensures
            final(self).wf(),
            final(self).state_spec() is Drained,
            step_allowed(old(self).state_spec(), final(self).state_spec()),
            final(self).marker_spec() == old(self).marker_spec(),
            final(self).gate_spec() == old(self).gate_spec(),
            final(self).transcript_spec() == old(self).transcript_spec() + concat_of(remaining@),
            out@ == final(self).transcript_spec(),
    {
        let mut j: usize = 0;
        proof {
            assert(self.transcript_spec() =~= old(self).transcript_spec() + concat_of(
                remaining@.subrange(0, 0),
            ));
        }
        while j < remaining.len()
            invariant
                0 <= j <= remaining@.len(),
                self.transcript@ == old(self).transcript@ + concat_of(
                    remaining@.subrange(0, j as int),
                ),
                self.state == old(self).state,
                self.ready_marker@ == old(self).ready_marker@,
                self.acc@ == old(self).acc@,
                self.gate == old(self).gate,
            decreases remaining@.len() - j,
        {
            append_bytes(&mut self.transcript, &remaining[j]);
            j += 1;
            proof {
                assert(remaining@.subrange(0, j as int) =~= remaining@.subrange(0, j - 1).push(
                    remaining@[j - 1],
                ));
                lemma_concat_push(remaining@.subrange(0, j - 1), remaining@[j - 1]);
            }
        }
        proof {
            assert(remaining@.subrange(0, remaining@.len() as int) =~= remaining@);
        }
        self.state = SessionState::Drained;
        let out = copy_range(&self.transcript, 0, self.transcript.len());
        proof {
            assert(self.transcript@.subrange(0, self.transcript@.len() as int)
                =~= self.transcript@);
        }
        out
    }

    /// The background reader has been joined: no further chunk can ever
    /// arrive, and the session is closed for good.
    pub fn reader_joined(&mut self)
        requires
            old(self).wf(),
            old(self).state_spec() is Drained,
        ensures
            final(self).wf(),
            final(self).state_spec() is Closed,
            step_allowed(old(self).state_spec(), final(self).state_spec()),
            final(self).marker_spec() == old(self).marker_spec(),
            final(self).transcript_spec() == old(self).transcript_spec(),
            final(self).gate_spec() == old(self).gate_spec(),
    {
        self.state = SessionState::Closed;
    }

    /// Where the session stands in its life.
    pub fn lifecycle(&self) -> (r: SessionState)
        ensures
            r == self.state_spec(),
    {
        self.state
    }

    /// The transcript so far: every chunk the reader forwarded, verbatim
    /// and in order.
    pub fn transcript_bytes(&self) -> (r: &Vec<u8>)
        ensures
            r@ == self.transcript_spec(),
    {
        &self.transcript
    }

    /// A session that reached readiness really observed its marker: the
    /// recorded output of any ready or executing session contains the
    /// readiness marker.
    pub proof fn lemma_ready_implies_marker_observed(&self)
        requires
            self.wf(),
            self.state_spec() is Ready || self.state_spec() is Executing,
        ensures
            contains_seq(self.transcript_spec(), self.marker_spec()),
    {
    }
}

} // verus!
