//! Substring matching over byte sequences.
//!
//! Marker recognition in the session protocol is plain substring search in
//! the accumulated output, so everything here is stated over `Seq<u8>`:
//! where a pattern matches, where it matches first, and how many times it
//! matches when counted greedily from the left.

use vstd::prelude::*;

verus! {

/// The pattern `pat` occurs in `hay` starting at index `i`.
pub open spec fn is_match_at(hay: Seq<u8>, pat: Seq<u8>, i: int) -> bool {
    &&& 0 <= i
    &&& i + pat.len() <= hay.len()
    &&& hay.subrange(i, i + pat.len() as int) == pat
}

/// The pattern occurs somewhere in `hay`.
pub open spec fn contains_seq(hay: Seq<u8>, pat: Seq<u8>) -> bool {
    exists|i: int| is_match_at(hay, pat, i)
}

/// The pattern occurs at `i` and nowhere earlier.
pub open spec fn is_first_match_at(hay: Seq<u8>, pat: Seq<u8>, i: int) -> bool {
    &&& is_match_at(hay, pat, i)
    &&& forall|j: int| 0 <= j < i ==> !is_match_at(hay, pat, j)
}

/// Index of the first occurrence of `pat` in `hay`; meaningful only when
/// `contains_seq(hay, pat)` holds (see `lemma_first_match_exists`).
pub open spec fn first_match(hay: Seq<u8>, pat: Seq<u8>) -> int {
    choose|i: int| is_first_match_at(hay, pat, i)
}

/// From any occurrence a leftmost occurrence can be found.
proof fn lemma_min_match(hay: Seq<u8>, pat: Seq<u8>, k: int)
    requires
        is_match_at(hay, pat, k),
    ensures
        exists|i: int| is_first_match_at(hay, pat, i),
    decreases k,
{
    if forall|j: int| 0 <= j < k ==> !is_match_at(hay, pat, j) {
        assert(is_first_match_at(hay, pat, k));
    } else {
        let j = choose|j: int| 0 <= j < k && is_match_at(hay, pat, j);
        lemma_min_match(hay, pat, j);
    }
}

/// When the pattern occurs at all, `first_match` names its leftmost
/// occurrence.
pub proof fn lemma_first_match_exists(hay: Seq<u8>, pat: Seq<u8>)
    requires
        contains_seq(hay, pat),
    ensures
        is_first_match_at(hay, pat, first_match(hay, pat)),
{
    let k = choose|i: int| is_match_at(hay, pat, i);
    lemma_min_match(hay, pat, k);
}

/// A leftmost occurrence is the one `first_match` names.
pub proof fn lemma_first_match_unique(hay: Seq<u8>, pat: Seq<u8>, i: int)
    requires
        is_first_match_at(hay, pat, i),
    ensures
        i == first_match(hay, pat),
{
    lemma_first_match_exists(hay, pat);
    let f = first_match(hay, pat);
    if i < f {
        assert(!is_match_at(hay, pat, i));
    }
    if f < i {
        assert(!is_match_at(hay, pat, f));
    }
}

/// A match inside a prefix is a match in the whole sequence.
pub proof fn lemma_contains_prefix(a: Seq<u8>, b: Seq<u8>, pat: Seq<u8>)
    requires
        contains_seq(a, pat),
    ensures
        contains_seq(a + b, pat),
{
    let i = choose|i: int| is_match_at(a, pat, i);
    assert((a + b).subrange(i, i + pat.len() as int) =~= pat);
    assert(is_match_at(a + b, pat, i));
}

/// Whether `pat` matches `hay` at position `i`.
pub fn match_at(hay: &Vec<u8>, pat: &Vec<u8>, i: usize) -> (r: bool)
    requires
        i + pat@.len() <= hay@.len(),
    ensures
        r == is_match_at(hay@, pat@, i as int),
{
    let mut j: usize = 0;
    while j < pat.len()
        invariant
            i + pat.len() <= hay.len(),
            0 <= j <= pat.len(),
            forall|k: int| 0 <= k < j ==> hay@[i + k] == pat@[k],
        decreases pat.len() - j,
    {
        if hay[i + j] != pat[j] {
            assert(!is_match_at(hay@, pat@, i as int)) by {
                if hay@.subrange(i as int, i + pat@.len() as int) == pat@ {
                    assert(hay@.subrange(i as int, i + pat@.len() as int)[j as int]
                        == hay@[i + j]);
                }
            }
            return false;
        }
        j += 1;
    }
    assert(hay@.subrange(i as int, i + pat@.len() as int) =~= pat@);
    true
}

/// Index of the first occurrence of `pat` in `hay`, if there is one.
pub fn find_first(hay: &Vec<u8>, pat: &Vec<u8>) -> (r: Option<usize>)
    ensures
        match r {
            Some(i) => is_first_match_at(hay@, pat@, i as int),
            None => !contains_seq(hay@, pat@),
        },
{
    if pat.len() == 0 {
        assert(hay@.subrange(0, 0) =~= pat@);
        return Some(0);
    }
    if pat.len() > hay.len() {
        assert(forall|i: int| !is_match_at(hay@, pat@, i));
        return None;
    }
    let last = hay.len() - pat.len();
    let mut i: usize = 0;
    loop
        invariant
            1 <= pat.len() <= hay.len(),
            last == hay.len() - pat.len(),
            0 <= i <= last + 1,
            forall|j: int| 0 <= j < i ==> !is_match_at(hay@, pat@, j),
        decreases last + 1 - i,
    {
        if i > last {
            assert(forall|j: int| i <= j ==> !is_match_at(hay@, pat@, j));
            return None;
        }
        if match_at(hay, pat, i) {
            return Some(i);
        }
        i += 1;
    }
}

/// Whether `pat` occurs anywhere in `hay`.
pub fn contains(hay: &Vec<u8>, pat: &Vec<u8>) -> (r: bool)
    ensures
        r == contains_seq(hay@, pat@),
{
    find_first(hay, pat).is_some()
}

/// How many times `pat` occurs in `hay`, counted greedily from the left:
/// each counted occurrence consumes its bytes, so occurrences never
/// overlap. An empty pattern counts zero.
pub open spec fn count_matches(hay: Seq<u8>, pat: Seq<u8>) -> nat
    decreases hay.len(),
{
    if pat.len() == 0 || hay.len() < pat.len() {
        0
    } else if hay.subrange(0, pat.len() as int) == pat {
        1 + count_matches(hay.subrange(pat.len() as int, hay.len() as int), pat)
    } else {
        count_matches(hay.subrange(1, hay.len() as int), pat)
    }
}

/// A match inside the suffix `hay.skip(k)` is a match in `hay`, shifted.
pub proof fn lemma_match_in_skip(hay: Seq<u8>, pat: Seq<u8>, k: int, j: int)
    requires
        0 <= k <= hay.len(),
        0 <= j,
    ensures
        is_match_at(hay.skip(k), pat, j) == is_match_at(hay, pat, k + j),
{
    if j + pat.len() <= hay.skip(k).len() {
        assert(hay.skip(k).subrange(j, j + pat.len() as int) =~= hay.subrange(
            k + j,
            k + j + pat.len() as int,
        ));
    }
}

/// Skipping a prefix in which the pattern never starts does not change the
/// count.
proof fn lemma_count_no_match_prefix(hay: Seq<u8>, pat: Seq<u8>, i: int)
    requires
        0 <= i <= hay.len(),
        forall|j: int| 0 <= j < i ==> !is_match_at(hay, pat, j),
    ensures
        count_matches(hay.skip(i), pat) == count_matches(hay, pat),
    decreases i,
{
    if i == 0 {
        assert(hay.skip(0) =~= hay);
    } else {
        if pat.len() == 0 {
            assert(count_matches(hay.skip(i), pat) == 0);
            assert(count_matches(hay, pat) == 0);
        } else if hay.len() < pat.len() {
            assert(count_matches(hay.skip(i), pat) == 0);
            assert(count_matches(hay, pat) == 0);
        } else {
            assert(!is_match_at(hay, pat, 0));
            assert(hay.subrange(0, pat.len() as int) != pat);
            assert(hay.subrange(1, hay.len() as int) =~= hay.skip(1));
            assert(count_matches(hay, pat) == count_matches(hay.skip(1), pat));
            assert forall|j: int| 0 <= j < i - 1 implies !is_match_at(hay.skip(1), pat, j) by {
                lemma_match_in_skip(hay, pat, 1, j);
            }
            lemma_count_no_match_prefix(hay.skip(1), pat, i - 1);
            assert(hay.skip(1).skip(i - 1) =~= hay.skip(i));
        }
    }
}

/// Counting past the first occurrence: the whole count is one more than the
/// count of what follows that occurrence.
pub proof fn lemma_count_first_match(hay: Seq<u8>, pat: Seq<u8>, i: int)
    requires
        pat.len() > 0,
        is_first_match_at(hay, pat, i),
    ensures
        count_matches(hay, pat) == 1 + count_matches(hay.skip(i + pat.len() as int), pat),
{
    lemma_count_no_match_prefix(hay, pat, i);
    lemma_match_in_skip(hay, pat, i, 0);
    let s = hay.skip(i);
    assert(s.subrange(0, pat.len() as int) == pat);
    assert(s.subrange(pat.len() as int, s.len() as int) =~= hay.skip(i + pat.len() as int));
    assert(count_matches(s, pat) == 1 + count_matches(hay.skip(i + pat.len() as int), pat));
}

/// A sequence that ends exactly at its one and only occurrence of the
/// pattern contains the pattern exactly once.
pub proof fn lemma_count_unique_match(s: Seq<u8>, pat: Seq<u8>)
    requires
        pat.len() > 0,
        is_first_match_at(s, pat, s.len() - pat.len()),
    ensures
        count_matches(s, pat) == 1,
{
    let i = s.len() - pat.len() as int;
    lemma_count_first_match(s, pat, i);
    assert(s.skip(i + pat.len() as int).len() == 0);
    assert(count_matches(s.skip(i + pat.len() as int), pat) == 0);
}

/// How many times `pat` occurs in `hay`, greedily from the left.
pub fn count_occurrences(hay: &Vec<u8>, pat: &Vec<u8>) -> (r: usize)
    ensures
        r == count_matches(hay@, pat@),
{
    if pat.len() == 0 || hay.len() < pat.len() {
        return 0;
    }
    let last = hay.len() - pat.len();
    let mut i: usize = 0;
    let mut c: usize = 0;
    proof {
        assert(hay@.skip(0) =~= hay@);
    }
    loop
        invariant
            1 <= pat.len() <= hay.len(),
            last == hay.len() - pat.len(),
            0 <= i <= hay.len(),
            c <= i,
            count_matches(hay@, pat@) == c + count_matches(hay@.skip(i as int), pat@),
        decreases hay.len() - i,
    {
        if i > last {
            assert(count_matches(hay@.skip(i as int), pat@) == 0);
            return c;
        }
        if match_at(hay, pat, i) {
            proof {
                lemma_match_in_skip(hay@, pat@, i as int, 0);
                let s = hay@.skip(i as int);
                assert(s.subrange(0, pat@.len() as int) == pat@);
                assert(s.subrange(pat@.len() as int, s.len() as int) =~= hay@.skip(
                    i + pat@.len(),
                ));
                assert(count_matches(s, pat@) == 1 + count_matches(
                    hay@.skip(i + pat@.len()),
                    pat@,
                ));
            }
            c += 1;
            i += pat.len();
        } else {
            proof {
                lemma_match_in_skip(hay@, pat@, i as int, 0);
                let s = hay@.skip(i as int);
                assert(s.subrange(0, pat@.len() as int) != pat@);
                assert(s.subrange(1, s.len() as int) =~= hay@.skip(i + 1));
                assert(count_matches(s, pat@) == count_matches(hay@.skip(i + 1), pat@));
            }
            i += 1;
        }
    }
}

/// The prefix a marker match consumes: everything up to and including the
/// first occurrence of `pat`. Meaningful only when `contains_seq(hay, pat)`.
pub open spec fn fired_segment(hay: Seq<u8>, pat: Seq<u8>) -> Seq<u8> {
    hay.subrange(0, first_match(hay, pat) + pat.len() as int)
}

/// What remains after a marker match is consumed: everything after the
/// first occurrence of `pat`. Meaningful only when `contains_seq(hay, pat)`.
pub open spec fn after_fire(hay: Seq<u8>, pat: Seq<u8>) -> Seq<u8> {
    hay.skip(first_match(hay, pat) + pat.len() as int)
}

/// What a marker firing consumes contains the marker exactly once: the
/// consumed prefix ends at the first occurrence, so no occurrence can
/// precede it and none can fit after it.
pub proof fn lemma_fired_segment_counts_once(hay: Seq<u8>, pat: Seq<u8>)
    requires
        pat.len() > 0,
        contains_seq(hay, pat),
    ensures
        hay == fired_segment(hay, pat) + after_fire(hay, pat),
        count_matches(fired_segment(hay, pat), pat) == 1,
        contains_seq(fired_segment(hay, pat), pat),
{
    lemma_first_match_exists(hay, pat);
    let i = first_match(hay, pat);
    let e = i + pat.len() as int;
    let seg = fired_segment(hay, pat);
    assert(hay =~= seg + after_fire(hay, pat));
    assert(is_match_at(seg, pat, i)) by {
        assert(seg.subrange(i, e) =~= hay.subrange(i, e));
    }
    assert forall|j: int| 0 <= j < i implies !is_match_at(seg, pat, j) by {
        if is_match_at(seg, pat, j) {
            assert(hay.subrange(j, j + pat.len() as int) =~= seg.subrange(
                j,
                j + pat.len() as int,
            ));
            assert(is_match_at(hay, pat, j));
        }
    }
    assert(is_first_match_at(seg, pat, i));
    lemma_count_unique_match(seg, pat);
}

/// Append the bytes of `src` to `dst`.
pub fn append_bytes(dst: &mut Vec<u8>, src: &Vec<u8>)
    ensures
        final(dst)@ == old(dst)@ + src@,
{
    let mut k: usize = 0;
    proof {
        assert(dst@ =~= old(dst)@ + src@.subrange(0, 0));
    }
    while k < src.len()
        invariant
            0 <= k <= src@.len(),
            dst@ == old(dst)@ + src@.subrange(0, k as int),
        decreases src@.len() - k,
    {
        dst.push(src[k]);
        k += 1;
        proof {
            assert(dst@ =~= old(dst)@ + src@.subrange(0, k as int));
        }
    }
    proof {
        assert(dst@ =~= old(dst)@ + src@);
    }
}

/// A copy of `src[from..to]`.
pub fn copy_range(src: &Vec<u8>, from: usize, to: usize) -> (r: Vec<u8>)
    requires
        from <= to <= src@.len(),
    ensures
        r@ == src@.subrange(from as int, to as int),
{
    let mut r: Vec<u8> = Vec::new();
    let mut k: usize = from;
    proof {
        assert(r@ =~= src@.subrange(from as int, from as int));
    }
    while k < to
        invariant
            from <= k <= to <= src@.len(),
            r@ == src@.subrange(from as int, k as int),
        decreases to - k,
    {
        r.push(src[k]);
        k += 1;
        proof {
            assert(r@ =~= src@.subrange(from as int, k as int));
        }
    }
    r
}

/// The bytes of a run of chunks, in arrival order.
pub open spec fn concat_of(chunks: Seq<Vec<u8>>) -> Seq<u8>
    decreases chunks.len(),
{
    if chunks.len() == 0 {
        Seq::empty()
    } else {
        chunks[0]@ + concat_of(chunks.drop_first())
    }
}

/// Appending one chunk appends its bytes.
pub proof fn lemma_concat_push(chunks: Seq<Vec<u8>>, c: Vec<u8>)
    ensures
        concat_of(chunks.push(c)) == concat_of(chunks) + c@,
    decreases chunks.len(),
{
    if chunks.len() == 0 {
        assert(chunks.push(c).drop_first() =~= Seq::<Vec<u8>>::empty());
        assert(chunks.push(c)[0] == c);
        assert(concat_of(Seq::<Vec<u8>>::empty()) == Seq::<u8>::empty());
        assert(concat_of(chunks.push(c)) == c@ + Seq::<u8>::empty());
        assert(concat_of(chunks.push(c)) =~= concat_of(chunks) + c@);
    } else {
        assert(chunks.push(c).drop_first() =~= chunks.drop_first().push(c));
        assert(chunks.push(c)[0] == chunks[0]);
        lemma_concat_push(chunks.drop_first(), c);
        assert(concat_of(chunks.push(c)) == chunks[0]@ + (concat_of(chunks.drop_first()) + c@));
        assert(concat_of(chunks) == chunks[0]@ + concat_of(chunks.drop_first()));
        assert(concat_of(chunks.push(c)) =~= concat_of(chunks) + c@);
    }
}

} // verus!
