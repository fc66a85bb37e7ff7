//! Splicing bytes into a body in front of a marker.
//!
//! Source, marker and inserted data are opaque byte sequences: nothing here
//! assumes a text encoding. An empty marker never matches, so splicing with
//! an empty marker leaves the source as it is.

use vstd::prelude::*;

verus! {

/// `marker` is not empty and stands in `source` at offset `at`.
pub open spec fn matches_at(source: Seq<u8>, marker: Seq<u8>, at: int) -> bool {
    &&& marker.len() > 0
    &&& 0 <= at
    &&& at + marker.len() <= source.len()
    &&& source.subrange(at, at + marker.len()) == marker
}

/// `marker` stands somewhere in `source`.
pub open spec fn occurs(source: Seq<u8>, marker: Seq<u8>) -> bool {
    exists|at: int| matches_at(source, marker, at)
}

/// `marker` stands at `at`, and at no smaller offset.
pub open spec fn is_first_match(source: Seq<u8>, marker: Seq<u8>, at: int) -> bool {
    &&& matches_at(source, marker, at)
    &&& forall|before: int| 0 <= before < at ==> !matches_at(source, marker, before)
}

/// The smallest offset at which `marker` stands in `source`, if there is one.
pub open spec fn first_match(source: Seq<u8>, marker: Seq<u8>) -> Option<int> {
    if exists|at: int| is_first_match(source, marker, at) {
        Some(choose|at: int| is_first_match(source, marker, at))
    } else {
        None
    }
}

/// `source` with `data` put in at offset `at`.
pub open spec fn inserted_at(source: Seq<u8>, at: int, data: Seq<u8>) -> Seq<u8> {
    source.subrange(0, at) + data + source.subrange(at, source.len() as int)
}

/// `source` with `data` put in before the first `marker`; `source` itself
/// where there is no marker in it.
pub open spec fn spliced(source: Seq<u8>, marker: Seq<u8>, data: Seq<u8>) -> Seq<u8> {
    match first_match(source, marker) {
        Some(at) => inserted_at(source, at, data),
        None => source,
    }
}

/// A first match is the only first match, so `first_match` names it.
pub proof fn lemma_first_match_is(source: Seq<u8>, marker: Seq<u8>, at: int)
    requires
        is_first_match(source, marker, at),
    ensures
        first_match(source, marker) == Some(at),
{
    let chosen = choose|p: int| is_first_match(source, marker, p);
    assert(is_first_match(source, marker, chosen));
    if chosen < at {
        assert(!matches_at(source, marker, chosen));
    } else if at < chosen {
        assert(!matches_at(source, marker, at));
    }
}

/// Whenever the marker occurs at all, it has a first occurrence, and that
/// one lies at or before `at`.
pub proof fn lemma_match_has_first(source: Seq<u8>, marker: Seq<u8>, at: int)
    requires
        matches_at(source, marker, at),
    ensures
        first_match(source, marker) is Some,
        is_first_match(source, marker, first_match(source, marker)->0),
        first_match(source, marker)->0 <= at,
    decreases at,
{
    if forall|before: int| 0 <= before < at ==> !matches_at(source, marker, before) {
        lemma_first_match_is(source, marker, at);
    } else {
        let before = choose|before: int| 0 <= before < at && matches_at(source, marker, before);
        lemma_match_has_first(source, marker, before);
    }
}

/// Without an occurrence of the marker, splicing changes nothing.
pub proof fn lemma_absent_marker_passes_through(
    source: Seq<u8>,
    marker: Seq<u8>,
    data: Seq<u8>,
)
    requires
        !occurs(source, marker),
    ensures
        spliced(source, marker, data) == source,
{
    if first_match(source, marker) is Some {
        let at = choose|p: int| is_first_match(source, marker, p);
        assert(matches_at(source, marker, at));
    }
}

/// With the first occurrence at `at`, the result is the source up to `at`,
/// the data, and the source from `at` on; it is longer than the source by
/// exactly the data.
pub proof fn lemma_splice_at_first_match(
    source: Seq<u8>,
    marker: Seq<u8>,
    data: Seq<u8>,
    at: int,
)
    requires
        is_first_match(source, marker, at),
    ensures
        spliced(source, marker, data) == source.subrange(0, at) + data + source.subrange(
            at,
            source.len() as int,
        ),
        spliced(source, marker, data).len() == source.len() + data.len(),
{
    lemma_first_match_is(source, marker, at);
}

/// However often the marker occurs, the data goes in once, before the
/// earliest occurrence: everything in front of any occurrence `at` that is
/// not the first is shifted by the length of the data, and the marker still
/// stands there.
pub proof fn lemma_only_first_match_is_used(
    source: Seq<u8>,
    marker: Seq<u8>,
    data: Seq<u8>,
    first: int,
    at: int,
)
    requires
        is_first_match(source, marker, first),
        matches_at(source, marker, at),
    ensures
        first <= at,
        spliced(source, marker, data) == inserted_at(source, first, data),
        spliced(source, marker, data).len() == source.len() + data.len(),
        matches_at(spliced(source, marker, data), marker, at + data.len()),
{
    lemma_first_match_is(source, marker, first);
    if at < first {
        assert(!matches_at(source, marker, at));
    }
    let out = spliced(source, marker, data);
    let shifted = at + data.len();
    assert(out.subrange(shifted, shifted + marker.len()) =~= source.subrange(
        at,
        at + marker.len(),
    ));
}

/// Whether `marker` stands in `source` at offset `at`.
fn window_matches(source: &[u8], marker: &[u8], at: usize) -> (found: bool)
    requires
        marker@.len() > 0,
        at + marker@.len() <= source@.len(),
    ensures
        found == matches_at(source@, marker@, at as int),
{
    let width = marker.len();
    let total = source.len();
    let mut k: usize = 0;
    while k < width
        invariant
            0 <= k <= width == marker@.len(),
            at + width <= total == source@.len(),
            forall|j: int| 0 <= j < k ==> source@[at + j] == marker@[j],
        decreases width - k,
    {
        if source[at + k] != marker[k] {
            assert(source@.subrange(at as int, at + marker@.len())[k as int] != marker@[k as int]);
            return false;
        }
        k += 1;
    }
    assert(source@.subrange(at as int, at + marker@.len()) =~= marker@);
    true
}

/// Finds the first occurrence of `marker` in `source` by sliding a window of
/// the marker's length over the source.
pub fn find_marker(source: &[u8], marker: &[u8]) -> (found: Option<usize>)
    ensures
        match found {
            Some(at) => first_match(source@, marker@) == Some(at as int),
            None => first_match(source@, marker@) is None,
        },
        found is Some <==> occurs(source@, marker@),
{
    if marker.len() == 0 || marker.len() > source.len() {
        assert forall|p: int| !matches_at(source@, marker@, p) by {}
        return None;
    }
    let last: usize = source.len() - marker.len();
    let mut at: usize = 0;
    while at <= last
        invariant
            marker@.len() > 0,
            last == source@.len() - marker@.len(),
            source@.len() <= usize::MAX,
            0 <= at <= last + 1,
            forall|before: int| 0 <= before < at ==> !matches_at(source@, marker@, before),
        decreases last + 1 - at,
    {
        if window_matches(source, marker, at) {
            proof {
                lemma_first_match_is(source@, marker@, at as int);
            }
            return Some(at);
        }
        at += 1;
    }
    assert forall|p: int| !matches_at(source@, marker@, p) by {}
    None
}

/// Inserts `data` into `source` before the first occurrence of `marker`.
///
/// If `marker` does not occur in `source`, or is empty, a copy of `source`
/// is returned.
pub fn insert_before(source: &[u8], marker: &[u8], data: &[u8]) -> (result: Vec<u8>)
    ensures
        result@ == spliced(source@, marker@, data@),
        occurs(source@, marker@) ==> result@.len() == source@.len() + data@.len(),
        !occurs(source@, marker@) ==> result@ == source@,
{
    let mut result: Vec<u8> = Vec::new();
    match find_marker(source, marker) {
        Some(at) => {
            let (head, tail) = source.split_at(at);
            match source.len().checked_add(data.len()) {
                Some(total) => result.reserve(total),
                None => {},
            }
            result.extend_from_slice(head);
            result.extend_from_slice(data);
            result.extend_from_slice(tail);
            assert(result@ =~= inserted_at(source@, at as int, data@));
        },
        None => {
            result.extend_from_slice(source);
            assert(result@ =~= source@);
        },
    }
    result
}

} // verus!
