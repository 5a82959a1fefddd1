//! The marker accumulator: a growing buffer of child output.
//!
//! The reader side feeds every chunk it receives into one of these, then
//! asks whether a marker has appeared. Consuming a marker trims everything
//! up to and including its first occurrence, so a later search cannot
//! re-match stale output, and the retained buffer stays bounded during a
//! long session.

use vstd::prelude::*;

use crate::bytes::after_fire;
use crate::bytes::append_bytes;
use crate::bytes::contains;
use crate::bytes::contains_seq;
use crate::bytes::copy_range;
use crate::bytes::count_matches;
use crate::bytes::find_first;
use crate::bytes::fired_segment;
use crate::bytes::lemma_fired_segment_counts_once;
use crate::bytes::lemma_first_match_unique;

verus! {

/// A buffer of output not yet consumed by a marker match.
pub struct Accumulator {
    buf: Vec<u8>,
}

impl View for Accumulator {
    type V = Seq<u8>;

    closed spec fn view(&self) -> Seq<u8> {
        self.buf@
    }
}

impl Accumulator {
    /// An empty buffer.
    pub fn new() -> (r: Accumulator)
        ensures
            r@ == Seq::<u8>::empty(),
    {
        Accumulator { buf: Vec::new() }
    }

    /// How many bytes are retained.
    pub fn len(&self) -> (r: usize)
        ensures
            r == self@.len(),
    {
        self.buf.len()
    }

    /// Append a chunk; reports whether it brought any new output.
    pub fn feed(&mut self, chunk: &Vec<u8>) -> (grew: bool)
        ensures
            final(self)@ == old(self)@ + chunk@,
            grew == (chunk@.len() > 0),
    {
        append_bytes(&mut self.buf, chunk);
        chunk.len() > 0
    }

    /// Whether the marker occurs in the retained output.
    pub fn contains_marker(&self, marker: &Vec<u8>) -> (r: bool)
        ensures
            r == contains_seq(self@, marker@),
    {
        contains(&self.buf, marker)
    }

    /// Trim through the first occurrence of the marker, returning the
    /// consumed prefix. The consumed prefix ends exactly at that first
    /// occurrence, so it contains the marker exactly once; the buffer
    /// keeps only what followed it.
    pub fn consume_through(&mut self, marker: &Vec<u8>) -> (consumed: Vec<u8>)
        requires
            marker@.len() > 0,
            contains_seq(old(self)@, marker@),
        ensures
            consumed@ == fired_segment(old(self)@, marker@),
            final(self)@ == after_fire(old(self)@, marker@),
            old(self)@ == consumed@ + final(self)@,
            contains_seq(consumed@, marker@),
            count_matches(consumed@, marker@) == 1,
    {
        let i = match find_first(&self.buf, marker) {
            Some(i) => i,
            None => {
                // contains_seq rules this branch out
                proof {
                    assert(false);
                }
                0
            },
        };
        proof {
            lemma_first_match_unique(self@, marker@, i as int);
            assert(i + marker@.len() <= self.buf.len());
        }
        let end = i + marker.len();
        let consumed = copy_range(&self.buf, 0, end);
        let rest = copy_range(&self.buf, end, self.buf.len());
        let ghost pre = self.buf@;
        self.buf = rest;
        proof {
            let m = marker@;
            let e = i + m.len() as int;
            assert(self@ =~= pre.skip(e));
            lemma_fired_segment_counts_once(pre, m);
        }
        consumed
    }
}

} // verus!
