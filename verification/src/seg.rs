use vstd::prelude::*;

verus! {

/// The part of the extended-grapheme-cluster boundary rule (Unicode UAX #29)
/// beyond the line-break rules: whether scalar index `i` of `s` falls on a
/// cluster boundary, for positions not adjacent to a carriage return or line
/// feed.  The full rule takes pages to state; it is left uninterpreted and the
/// segmentation cursor wrappers in `buffer` speak of it.
pub uninterp spec fn seg_rest(s: Seq<char>, i: int) -> bool;

/// Whether scalar index `i` of `s` is an extended-grapheme-cluster boundary.
///
/// The start and end of the text are always boundaries; a carriage return
/// followed by a line feed forms a single cluster, and otherwise there is a
/// boundary on both sides of a carriage return or line feed.  These are the
/// line-break rules of UAX #29 (GB3, GB4, GB5); everything else is
/// `seg_rest`.
pub open spec fn is_gb(s: Seq<char>, i: int) -> bool {
    if i <= 0 || i >= s.len() {
        true
    } else if s[i - 1] == '\r' && s[i] == '\n' {
        false
    } else if s[i - 1] == '\n' || s[i - 1] == '\r' || s[i] == '\n' || s[i] == '\r' {
        true
    } else {
        seg_rest(s, i)
    }
}

/// Number of cluster boundaries of `s` in the half-open index range `(a, b]`.
/// When `a` and `b` are themselves boundaries, this is the number of clusters
/// between them.
pub open spec fn gb_in(s: Seq<char>, a: int, b: int) -> nat
    decreases b - a,
{
    if b <= a {
        0
    } else {
        gb_in(s, a, b - 1) + (if is_gb(s, b) { 1nat } else { 0nat })
    }
}

/// Boundary counts over adjacent ranges add up.
pub proof fn lemma_gb_in_concat(s: Seq<char>, a: int, b: int, c: int)
    requires
        a <= b <= c,
    ensures
        gb_in(s, a, c) == gb_in(s, a, b) + gb_in(s, b, c),
    decreases c - b,
{
    if c > b {
        lemma_gb_in_concat(s, a, b, c - 1);
    }
}

/// A range with no boundary in it counts zero.
pub proof fn lemma_gb_in_empty(s: Seq<char>, a: int, b: int)
    requires
        a <= b,
        forall|k: int| a < k <= b ==> !is_gb(s, k),
    ensures
        gb_in(s, a, b) == 0,
    decreases b - a,
{
    if b > a {
        lemma_gb_in_empty(s, a, b - 1);
    }
}

/// A range of `n` indices holds at most `n` boundaries.
pub proof fn lemma_gb_in_le(s: Seq<char>, a: int, b: int)
    requires
        a <= b,
    ensures
        gb_in(s, a, b) <= b - a,
    decreases b - a,
{
    if b > a {
        lemma_gb_in_le(s, a, b - 1);
    }
}

/// Stepping to the least boundary after `a` counts exactly one cluster.
pub proof fn lemma_gb_in_step(s: Seq<char>, a: int, b: int)
    requires
        a < b,
        is_gb(s, b),
        forall|k: int| a < k < b ==> !is_gb(s, k),
    ensures
        gb_in(s, a, b) == 1,
{
    lemma_gb_in_empty(s, a, b - 1);
}

} // verus!
