//! The child process gate: a cached terminal status that makes waiting
//! and killing safe to race.
//!
//! The operating system reports a child's exit once; a session may see
//! termination requests from a second thread before, during, or after
//! that. The record absorbs both kinds of event in any order: the first
//! recorded exit fixes the terminal status forever, a termination request
//! never alters it, and reading the cached status never blocks and never
//! changes anything.

use vstd::prelude::*;

verus! {

/// A child's terminal status: the exit code it returned, or a note that a
/// signal ended it.
#[derive(Clone, Copy, Debug, PartialEq, Eq, Structural)]
pub struct ExitStatus {
    code: u32,
    signaled: bool,
}

impl ExitStatus {
    /// The status of a child that returned `code`.
    pub fn with_exit_code(code: u32) -> (r: ExitStatus)
        ensures
            r.code_spec() == code,
            !r.is_signaled(),
    {
        ExitStatus { code, signaled: false }
    }

    /// The status of a child that a signal ended.
    pub fn with_signal() -> (r: ExitStatus)
        ensures
            r.is_signaled(),
            r.code_spec() == 1,
            !r.success_spec(),
    {
        ExitStatus { code: 1, signaled: true }
    }

    /// The exit code.
    pub closed spec fn code_spec(&self) -> u32 {
        self.code
    }

    /// Whether a signal ended the child.
    pub closed spec fn is_signaled(&self) -> bool {
        self.signaled
    }

    /// Successful completion: exited by itself with code zero.
    pub open spec fn success_spec(&self) -> bool {
        !self.is_signaled() && self.code_spec() == 0
    }

    /// Whether the status indicates successful completion.
    pub fn success(&self) -> (r: bool)
        ensures
            r == self.success_spec(),
    {
        !self.signaled && self.code == 0
    }

    /// The exit code the status was constructed with.
    pub fn exit_code(&self) -> (r: u32)
        ensures
            r == self.code_spec(),
    {
        self.code
    }
}

/// Something that happened to the child, in the order the session learned
/// of it.
pub enum ChildEvent {
    /// Some thread asked for the child's termination.
    KillRequested,
    /// The child's exit was observed, with its status.
    Exited(ExitStatus),
}

/// The session's record of the child's fate.
pub struct ChildGate {
    status: Option<ExitStatus>,
    kill_requested: bool,
}

impl ChildGate {
    /// The cached terminal status, if the exit was recorded.
    pub closed spec fn status_opt(&self) -> Option<ExitStatus> {
        self.status
    }

    /// Whether a termination request was seen.
    pub closed spec fn kill_was_requested(&self) -> bool {
        self.kill_requested
    }

    /// Whether the child's exit has been recorded.
    pub open spec fn exited(&self) -> bool {
        self.status_opt() is Some
    }

    /// The cached terminal status; meaningful once `exited()`.
    pub open spec fn status_spec(&self) -> ExitStatus
        recommends
            self.exited(),
    {
        self.status_opt()->0
    }

    /// What one event does to the record: the first exit fixes the
    /// status, anything after that leaves it alone.
    pub closed spec fn apply_event(self, e: ChildEvent) -> ChildGate {
        match e {
            ChildEvent::KillRequested => ChildGate { kill_requested: true, ..self },
            ChildEvent::Exited(st) => {
                if self.status is None {
                    ChildGate { status: Some(st), ..self }
                } else {
                    self
                }
            },
        }
    }

    /// What a whole history of events does to the record.
    pub open spec fn apply_events(self, es: Seq<ChildEvent>) -> ChildGate
        decreases es.len(),
    {
        if es.len() == 0 {
            self
        } else {
            self.apply_event(es[0]).apply_events(es.drop_first())
        }
    }

    /// A gate for a freshly spawned child.
    pub fn new() -> (r: ChildGate)
        ensures
            !r.exited(),
            !r.kill_was_requested(),
    {
        ChildGate { status: None, kill_requested: false }
    }

    /// Whether the child's exit has been recorded.
    pub fn has_exited(&self) -> (r: bool)
        ensures
            r == self.exited(),
    {
        self.status.is_some()
    }

    /// Note a termination request. Allowed in every state — asking again,
    /// or asking after the child already exited, is benign and never
    /// touches the recorded status.
    pub fn request_kill(&mut self) -> (already_exited: bool)
        ensures
            *final(self) == old(self).apply_event(ChildEvent::KillRequested),
            final(self).status_opt() == old(self).status_opt(),
            final(self).kill_was_requested(),
            already_exited == old(self).exited(),
    {
        self.kill_requested = true;
        self.status.is_some()
    }

    /// Record an observed exit. Only the first recording takes; a later
    /// one is absorbed without changing the cached status.
    pub fn record_exit(&mut self, st: ExitStatus) -> (recorded: bool)
        ensures
            *final(self) == old(self).apply_event(ChildEvent::Exited(st)),
            final(self).exited(),
            recorded == !old(self).exited(),
            recorded ==> final(self).status_spec() == st,
            !recorded ==> final(self).status_opt() == old(self).status_opt(),
            final(self).kill_was_requested() == old(self).kill_was_requested(),
    {
        if self.status.is_none() {
            self.status = Some(st);
            true
        } else {
            false
        }
    }

    /// The cached terminal status. Reading it blocks nothing and changes
    /// nothing, so it can be read any number of times.
    pub fn wait_cached(&self) -> (r: ExitStatus)
        requires
            self.exited(),
        ensures
            r == self.status_spec(),
    {
        match &self.status {
            Some(st) => *st,
            None => ExitStatus { code: 0, signaled: false },  // unreachable under the precondition
        }
    }

    /// Once the exit is recorded, no later history of kills or duplicate
    /// exit reports changes the terminal status: a racing `kill` cannot
    /// corrupt what `wait` reports.
    pub proof fn lemma_terminal_status_stable(self, es: Seq<ChildEvent>)
        requires
            self.exited(),
        ensures
            self.apply_events(es).status_opt() == self.status_opt(),
        decreases es.len(),
    {
        if es.len() > 0 {
            let g = self.apply_event(es[0]);
            assert(g.status_opt() == self.status_opt());
            g.lemma_terminal_status_stable(es.drop_first());
        }
    }

    /// Waiting twice on an already-exited child observes the same terminal
    /// status both times, whatever happened in between.
    pub proof fn lemma_wait_twice_same(self, es: Seq<ChildEvent>)
        requires
            self.exited(),
        ensures
            self.apply_events(es).exited(),
            self.apply_events(es).status_spec() == self.status_spec(),
    {
        self.lemma_terminal_status_stable(es);
    }
}

} // verus!
