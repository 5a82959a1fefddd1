//! The scripted echo round trip, as an explicit state machine.
//!
//! Driving a shell through one command is a fixed protocol: wait for the
//! prompt, send the command, watch its echo come back, watch its result,
//! and when the prompt reappears send the exit line. Each observation is
//! a marker firing in the accumulator; the engine below is the table of
//! (phase, observed marker) to (action, next phase). The sends themselves
//! are I/O and happen outside; the engine only tells its driver what to
//! do and advances when told the write went out.
//!
//! Marker matching is substring matching on the raw stream. A prompt or
//! result string that can also occur inside ordinary command output will
//! fire early; callers choose markers with that known fragility in mind.

use vstd::prelude::*;

use crate::accumulator::Accumulator;
use crate::bytes::after_fire;
use crate::bytes::contains_seq;
use crate::bytes::count_matches;
use crate::bytes::fired_segment;
use crate::bytes::lemma_fired_segment_counts_once;

verus! {

/// Where the engine stands in the round trip.
#[derive(Clone, Copy, Debug, PartialEq, Eq, Structural)]
pub enum ScriptPhase {
    /// Watching for the first prompt.
    AwaitingPrompt,
    /// The command was handed to the driver; its write is not confirmed.
    SentEcho,
    /// Watching for the terminal's echo of the command.
    AwaitingEcho,
    /// Watching for the command's result.
    AwaitingResult,
    /// Watching for the prompt to reappear after the result.
    AwaitingPrompt2,
    /// The exit line was handed to the driver; the script is finished.
    Done,
}

/// What the driver must do after an observation.
#[derive(Clone, Copy, Debug, PartialEq, Eq, Structural)]
pub enum ScriptAction {
    /// Nothing; keep reading.
    Idle,
    /// Write the command line to the child.
    SendCommand,
    /// Write the exit line to the child.
    SendExit,
}

/// The three markers that delimit one round trip.
pub struct EchoScript {
    prompt: Vec<u8>,
    echo: Vec<u8>,
    result: Vec<u8>,
}

impl EchoScript {
    /// The prompt marker.
    pub closed spec fn prompt_spec(&self) -> Seq<u8> {
        self.prompt@
    }

    /// The echo marker: the command text as the terminal echoes it.
    pub closed spec fn echo_spec(&self) -> Seq<u8> {
        self.echo@
    }

    /// The result marker: the output the command is expected to produce.
    pub closed spec fn result_spec(&self) -> Seq<u8> {
        self.result@
    }

    /// Markers must be nonempty: an empty marker would fire on anything.
    pub open spec fn wf(&self) -> bool {
        &&& self.prompt_spec().len() > 0
        &&& self.echo_spec().len() > 0
        &&& self.result_spec().len() > 0
    }

    /// A script from its three markers.
    pub fn new(prompt: Vec<u8>, echo: Vec<u8>, result: Vec<u8>) -> (r: EchoScript)
        requires
            prompt@.len() > 0,
            echo@.len() > 0,
            result@.len() > 0,
        ensures
            r.wf(),
            r.prompt_spec() == prompt@,
            r.echo_spec() == echo@,
            r.result_spec() == result@,
    {
        EchoScript { prompt, echo, result }
    }
}

/// The state machine that runs one scripted round trip.
pub struct ScriptEngine {
    script: EchoScript,
    phase: ScriptPhase,
}

impl ScriptEngine {
    /// The engine's current phase.
    pub closed spec fn phase_spec(&self) -> ScriptPhase {
        self.phase
    }

    /// The engine's script.
    pub closed spec fn script_spec(&self) -> &EchoScript {
        &self.script
    }

    /// The engine is usable while its markers are.
    pub open spec fn wf(&self) -> bool {
        self.script_spec().wf()
    }

    /// An engine at the start of the round trip.
    pub fn new(script: EchoScript) -> (r: ScriptEngine)
        requires
            script.wf(),
        ensures
            r.wf(),
            r.phase_spec() is AwaitingPrompt,
            r.script_spec().prompt_spec() == script.prompt_spec(),
            r.script_spec().echo_spec() == script.echo_spec(),
            r.script_spec().result_spec() == script.result_spec(),
    {
        ScriptEngine { script, phase: ScriptPhase::AwaitingPrompt }
    }

    /// The engine's current phase.
    pub fn phase(&self) -> (r: ScriptPhase)
        ensures
            r == self.phase_spec(),
    {
        self.phase
    }

    /// Whether the round trip has finished.
    pub fn is_done(&self) -> (r: bool)
        ensures
            r == (self.phase_spec() is Done),
    {
        matches!(self.phase, ScriptPhase::Done)
    }

    /// One table step: look at the accumulated output, fire the phase's
    /// marker if it has appeared, and say what the driver must do.
    ///
    /// Each firing consumes the buffer through the first occurrence of
    /// the phase's marker, and the consumed segment contains that marker
    /// exactly once: the round trip observes the prompt, the echo, the
    /// result and the prompt again once each, in that order.
    pub fn observe(&mut self, acc: &mut Accumulator) -> (a: ScriptAction)
        requires
            old(self).wf(),
        ensures
            final(self).wf(),
            final(self).script_spec().prompt_spec() == old(self).script_spec().prompt_spec(),
            final(self).script_spec().echo_spec() == old(self).script_spec().echo_spec(),
            final(self).script_spec().result_spec() == old(self).script_spec().result_spec(),
            old(self).phase_spec() is AwaitingPrompt ==> {
                let m = old(self).script_spec().prompt_spec();
                if contains_seq(old(acc)@, m) {
                    &&& final(self).phase_spec() is SentEcho
                    &&& a is SendCommand
                    &&& final(acc)@ == after_fire(old(acc)@, m)
                    &&& count_matches(fired_segment(old(acc)@, m), m) == 1
                } else {
                    &&& final(self).phase_spec() is AwaitingPrompt
                    &&& a is Idle
                    &&& final(acc)@ == old(acc)@
                }
            },
            old(self).phase_spec() is SentEcho ==> {
                &&& final(self).phase_spec() is SentEcho
                &&& a is Idle
                &&& final(acc)@ == old(acc)@
            },
            old(self).phase_spec() is AwaitingEcho ==> {
                let m = old(self).script_spec().echo_spec();
                if contains_seq(old(acc)@, m) {
                    &&& final(self).phase_spec() is AwaitingResult
                    &&& a is Idle
                    &&& final(acc)@ == after_fire(old(acc)@, m)
                    &&& count_matches(fired_segment(old(acc)@, m), m) == 1
                } else {
                    &&& final(self).phase_spec() is AwaitingEcho
                    &&& a is Idle
                    &&& final(acc)@ == old(acc)@
                }
            },
            old(self).phase_spec() is AwaitingResult ==> {
                let m = old(self).script_spec().result_spec();
                if contains_seq(old(acc)@, m) {
                    &&& final(self).phase_spec() is AwaitingPrompt2
                    &&& a is Idle
                    &&& final(acc)@ == after_fire(old(acc)@, m)
                    &&& count_matches(fired_segment(old(acc)@, m), m) == 1
                } else {
                    &&& final(self).phase_spec() is AwaitingResult
                    &&& a is Idle
                    &&& final(acc)@ == old(acc)@
                }
            },
            old(self).phase_spec() is AwaitingPrompt2 ==> {
                let m = old(self).script_spec().prompt_spec();
                if contains_seq(old(acc)@, m) {
                    &&& final(self).phase_spec() is Done
                    &&& a is SendExit
                    &&& final(acc)@ == after_fire(old(acc)@, m)
                    &&& count_matches(fired_segment(old(acc)@, m), m) == 1
                } else {
                    &&& final(self).phase_spec() is AwaitingPrompt2
                    &&& a is Idle
                    &&& final(acc)@ == old(acc)@
                }
            },
            old(self).phase_spec() is Done ==> {
                &&& final(self).phase_spec() is Done
                &&& a is Idle
                &&& final(acc)@ == old(acc)@
            },
    {
        match self.phase {
            ScriptPhase::AwaitingPrompt => {
                if acc.contains_marker(&self.script.prompt) {
                    let _ = acc.consume_through(&self.script.prompt);
                    self.phase = ScriptPhase::SentEcho;
                    ScriptAction::SendCommand
                } else {
                    ScriptAction::Idle
                }
            },
            ScriptPhase::SentEcho => ScriptAction::Idle,
            ScriptPhase::AwaitingEcho => {
                if acc.contains_marker(&self.script.echo) {
                    let _ = acc.consume_through(&self.script.echo);
                    self.phase = ScriptPhase::AwaitingResult;
                }
                ScriptAction::Idle
            },
            ScriptPhase::AwaitingResult => {
                if acc.contains_marker(&self.script.result) {
                    let _ = acc.consume_through(&self.script.result);
                    self.phase = ScriptPhase::AwaitingPrompt2;
                }
                ScriptAction::Idle
            },
            ScriptPhase::AwaitingPrompt2 => {
                if acc.contains_marker(&self.script.prompt) {
                    let _ = acc.consume_through(&self.script.prompt);
                    self.phase = ScriptPhase::Done;
                    ScriptAction::SendExit
                } else {
                    ScriptAction::Idle
                }
            },
            ScriptPhase::Done => ScriptAction::Idle,
        }
    }

    /// One round trip is idempotent in what it consumes: over any output
    /// in which the script's markers appear in protocol order — prompt,
    /// echo, result, prompt — the four firings consume four adjacent
    /// segments, and each segment contains its marker exactly once. The
    /// command echo and its result are each observed a single time.
    pub proof fn lemma_round_trip_consumes_each_marker_once(&self, out: Seq<u8>)
        requires
            self.wf(),
            contains_seq(out, self.script_spec().prompt_spec()),
            contains_seq(
                after_fire(out, self.script_spec().prompt_spec()),
                self.script_spec().echo_spec(),
            ),
            contains_seq(
                after_fire(
                    after_fire(out, self.script_spec().prompt_spec()),
                    self.script_spec().echo_spec(),
                ),
                self.script_spec().result_spec(),
            ),
            contains_seq(
                after_fire(
                    after_fire(
                        after_fire(out, self.script_spec().prompt_spec()),
                        self.script_spec().echo_spec(),
                    ),
                    self.script_spec().result_spec(),
                ),
                self.script_spec().prompt_spec(),
            ),
        ensures
            ({
                let p = self.script_spec().prompt_spec();
                let e = self.script_spec().echo_spec();
                let q = self.script_spec().result_spec();
                let rest1 = after_fire(out, p);
                let rest2 = after_fire(rest1, e);
                let rest3 = after_fire(rest2, q);
                &&& out == fired_segment(out, p) + fired_segment(rest1, e) + fired_segment(
                    rest2,
                    q,
                ) + fired_segment(rest3, p) + after_fire(rest3, p)
                &&& count_matches(fired_segment(out, p), p) == 1
                &&& count_matches(fired_segment(rest1, e), e) == 1
                &&& count_matches(fired_segment(rest2, q), q) == 1
                &&& count_matches(fired_segment(rest3, p), p) == 1
            }),
    {
        let p = self.script_spec().prompt_spec();
        let e = self.script_spec().echo_spec();
        let q = self.script_spec().result_spec();
        let rest1 = after_fire(out, p);
        let rest2 = after_fire(rest1, e);
        let rest3 = after_fire(rest2, q);
        lemma_fired_segment_counts_once(out, p);
        lemma_fired_segment_counts_once(rest1, e);
        lemma_fired_segment_counts_once(rest2, q);
        lemma_fired_segment_counts_once(rest3, p);
        assert(out =~= fired_segment(out, p) + fired_segment(rest1, e) + fired_segment(rest2, q)
            + fired_segment(rest3, p) + after_fire(rest3, p));
    }

    /// The driver confirms that the command line was written.
    pub fn command_sent(&mut self)
        requires
            old(self).wf(),
            old(self).phase_spec() is SentEcho,
        ensures
            final(self).wf(),
            final(self).phase_spec() is AwaitingEcho,
            final(self).script_spec().prompt_spec() == old(self).script_spec().prompt_spec(),
            final(self).script_spec().echo_spec() == old(self).script_spec().echo_spec(),
            final(self).script_spec().result_spec() == old(self).script_spec().result_spec(),
    {
        self.phase = ScriptPhase::AwaitingEcho;
    }
}

} // verus!
