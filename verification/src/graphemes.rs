use vstd::prelude::*;
use crate::buffer::{
    rope_chars, stepper_new, stepper_try_next, stepper_try_prev, stepper_refill, stepper_text,
    stepper_seed, stepper_work, StepTry,
};
use crate::seg::{
    is_gb, gb_in, lemma_gb_in_concat, lemma_gb_in_empty, lemma_gb_in_step, lemma_gb_in_le,
};
use crate::lines::{
    row_of, num_lines, line_start, line_end_from, content_end, lemma_row_of_mono,
    lemma_row_of_same, lemma_row_of_cross, lemma_line_end_from, lemma_line_start, lemma_row_span,
    lemma_row_of_start, lemma_content_end,
};

verus! {

/// `b` is the first cluster boundary after `a` in `s`; at the very end of the
/// text there is nowhere to go and `b` is `a` itself.
pub open spec fn next_gb(s: Seq<char>, a: int, b: int) -> bool {
    if a == s.len() {
        b == a
    } else {
        a < b <= s.len() && is_gb(s, b) && forall|k: int| a < k < b ==> !is_gb(s, k)
    }
}

/// `b` is the last cluster boundary before `a` in `s`; at the very start of
/// the text there is nowhere to go and `b` is `a` itself.
pub open spec fn prev_gb(s: Seq<char>, a: int, b: int) -> bool {
    if a == 0 {
        b == 0
    } else {
        0 <= b < a && is_gb(s, b) && forall|k: int| b < k < a ==> !is_gb(s, k)
    }
}

/// `p` is a caret position on row `row`: on the row's cluster-boundary grid,
/// at or before the row's content end.
pub open spec fn at_row_col(s: Seq<char>, row: int, p: int) -> bool {
    line_start(s, row) <= p <= content_end(s, row) && (p == line_start(s, row) || is_gb(s, p))
}

/// Number of grapheme clusters in row `row`, its line break not counted.
pub open spec fn line_cluster_count(s: Seq<char>, row: int) -> nat {
    gb_in(s, line_start(s, row), content_end(s, row))
}

/// Next grapheme-cluster boundary, as an absolute scalar index, after the
/// absolute scalar index `abs_ci`.  At the end of the buffer it stays put.
pub fn next_grapheme_abs_char(text: &ropey::Rope, abs_ci: usize) -> (r: usize)
    requires
        (abs_ci as int) <= rope_chars(*text).len(),
    ensures
        next_gb(rope_chars(*text), abs_ci as int, r as int),
{
    let mut st = stepper_new(text, abs_ci);
    loop
        invariant
            stepper_text(st) == rope_chars(*text),
            stepper_seed(st) == abs_ci as int,
        decreases stepper_work(st),
    {
        match stepper_try_next(st) {
            StepTry::Found(b) => {
                return b;
            },
            StepTry::Edge => {
                return abs_ci;
            },
            StepTry::Stalled(st2) => {
                st = stepper_refill(st2);
            },
        }
    }
}

/// Previous grapheme-cluster boundary, as an absolute scalar index, before
/// the absolute scalar index `abs_ci`.  At the start of the buffer it stays
/// put.
pub fn prev_grapheme_abs_char(text: &ropey::Rope, abs_ci: usize) -> (r: usize)
    requires
        (abs_ci as int) <= rope_chars(*text).len(),
    ensures
        prev_gb(rope_chars(*text), abs_ci as int, r as int),
{
    let mut st = stepper_new(text, abs_ci);
    loop
        invariant
            stepper_text(st) == rope_chars(*text),
            stepper_seed(st) == abs_ci as int,
        decreases stepper_work(st),
    {
        match stepper_try_prev(st) {
            StepTry::Found(b) => {
                return b;
            },
            StepTry::Edge => {
                return abs_ci;
            },
            StepTry::Stalled(st2) => {
                st = stepper_refill(st2);
            },
        }
    }
}

/// A row's content end always falls on a cluster boundary: it is the end of
/// the text, a line feed not preceded by a carriage return, or a carriage
/// return, and the line-break rules put a boundary before each.
pub proof fn lemma_content_end_is_gb(s: Seq<char>, row: int)
    requires
        0 <= row < num_lines(s),
    ensures
        is_gb(s, content_end(s, row)),
{
    let ls = line_start(s, row);
    let le = line_end_from(s, ls);
    lemma_line_start(s, row);
    lemma_line_end_from(s, ls);
}

/// The first scalar index and the content end of row `row`.
fn line_span(text: &ropey::Rope, row: usize) -> (r: (usize, usize))
    requires
        (row as int) < num_lines(rope_chars(*text)),
    ensures
        r.0 as int == line_start(rope_chars(*text), row as int),
        r.1 as int == content_end(rope_chars(*text), row as int),
        r.0 <= r.1 <= rope_chars(*text).len(),
{
    let ghost s = rope_chars(*text);
    proof {
        lemma_line_start(s, row as int);
        lemma_line_end_from(s, line_start(s, row as int));
        lemma_content_end(s, row as int);
    }
    let ls = text.line_to_char(row);
    let len = text.len_chars();
    let nl = text.len_lines();
    let le: usize;
    if row < nl - 1 {
        let next_ls = text.line_to_char(row + 1);
        proof {
            lemma_line_start(s, row as int + 1);
        }
        le = next_ls - 1;
    } else {
        proof {
            // On the last row there is no further line feed: one would start
            // one more row than the text has.
            let le0 = line_end_from(s, ls as int);
            if le0 < s.len() {
                lemma_row_of_same(s, ls as int, le0);
                lemma_row_of_cross(s, le0);
                lemma_row_of_mono(s, le0 + 1, s.len() as int);
                assert(false);
            }
        }
        le = len;
    }
    if le < len && le > ls {
        let prev = text.char(le - 1);
        if prev == '\r' {
            (ls, le - 1)
        } else {
            (ls, le)
        }
    } else {
        (ls, le)
    }
}

/// Number of grapheme clusters on row `row`, the line break not counted: the
/// boundaries stepped over between the row's start and its content end.
pub fn line_gcount(text: &ropey::Rope, row: usize) -> (r: usize)
    requires
        (row as int) < num_lines(rope_chars(*text)),
    ensures
        r as nat == line_cluster_count(rope_chars(*text), row as int),
{
    let ghost s = rope_chars(*text);
    let (ls, ce) = line_span(text, row);
    let len = text.len_chars();
    let mut b: usize = ls;
    let mut cnt: usize = 0;
    loop
        invariant
            s == rope_chars(*text),
            ls as int == line_start(s, row as int),
            ce as int == content_end(s, row as int),
            ls <= b <= ce <= len,
            len == s.len(),
            b == ls || is_gb(s, b as int),
            cnt as nat == gb_in(s, ls as int, b as int),
            (cnt as int) <= b - ls,
        decreases ce - b,
    {
        if b == ce {
            return cnt;
        }
        let nb = next_grapheme_abs_char(text, b);
        if nb > ce {
            proof {
                lemma_gb_in_concat(s, ls as int, b as int, ce as int);
                lemma_gb_in_empty(s, b as int, ce as int);
            }
            return cnt;
        }
        proof {
            lemma_gb_in_concat(s, ls as int, b as int, nb as int);
            lemma_gb_in_step(s, b as int, nb as int);
            lemma_gb_in_le(s, ls as int, nb as int);
        }
        cnt = cnt + 1;
        b = nb;
    }
}

/// Absolute scalar index of the caret position `gcol` clusters into row
/// `row`; a column past the row's cluster count rests after the last cluster.
pub fn line_gcol_to_abs_char(text: &ropey::Rope, row: usize, gcol: usize) -> (r: usize)
    requires
        (row as int) < num_lines(rope_chars(*text)),
    ensures
        at_row_col(rope_chars(*text), row as int, r as int),
        gb_in(rope_chars(*text), line_start(rope_chars(*text), row as int), r as int) == (
        if (gcol as nat) <= line_cluster_count(rope_chars(*text), row as int) {
            gcol as nat
        } else {
            line_cluster_count(rope_chars(*text), row as int)
        }),
{
    let ghost s = rope_chars(*text);
    let (ls, ce) = line_span(text, row);
    proof {
        lemma_content_end_is_gb(s, row as int);
    }
    let mut b: usize = ls;
    let mut g: usize = 0;
    loop
        invariant
            s == rope_chars(*text),
            (row as int) < num_lines(s),
            ls as int == line_start(s, row as int),
            ce as int == content_end(s, row as int),
            ls <= b <= ce <= s.len(),
            is_gb(s, ce as int),
            b == ls || is_gb(s, b as int),
            g as nat == gb_in(s, ls as int, b as int),
            g <= gcol,
        decreases gcol - g,
    {
        if g == gcol || b == ce {
            proof {
                lemma_gb_in_concat(s, ls as int, b as int, ce as int);
            }
            return b;
        }
        let nb = next_grapheme_abs_char(text, b);
        proof {
            // `ce` is a boundary past `b`, so the least boundary past `b`
            // is at or before it.
            assert((nb as int) <= ce as int);
            lemma_gb_in_concat(s, ls as int, b as int, nb as int);
            lemma_gb_in_step(s, b as int, nb as int);
        }
        g = g + 1;
        b = nb;
    }
}

/// A caret position the editor can reach: on the cluster-boundary grid, at
/// or before its own row's content end.
pub open spec fn caret_on_grid(s: Seq<char>, c: int) -> bool {
    0 <= c <= s.len() && (c == 0 || is_gb(s, c)) && c <= content_end(s, row_of(s, c) as int)
}

/// Round trip: a caret on the grid is named uniquely by its visual
/// position.  Any position `p` that converting the caret's own row and
/// column back to an absolute offset may yield -- a position on that row's
/// grid carrying the same column count -- is the caret itself.
pub proof fn lemma_visual_round_trip(s: Seq<char>, c: int, p: int)
    requires
        caret_on_grid(s, c),
        at_row_col(s, row_of(s, c) as int, p),
        gb_in(s, line_start(s, row_of(s, c) as int), p) == gb_in(
            s,
            line_start(s, row_of(s, c) as int),
            c,
        ),
    ensures
        p == c,
{
    let row = row_of(s, c) as int;
    lemma_row_of_start(s, c);
    let ls = line_start(s, row);
    let ce = content_end(s, row);
    lemma_content_end(s, row);
    if p < c {
        lemma_gb_in_concat(s, ls, p, c);
        assert(gb_in(s, p, c) == gb_in(s, p, c - 1) + 1);
        assert(false);
    } else if c < p {
        lemma_gb_in_concat(s, ls, c, p);
        assert(gb_in(s, c, p) == gb_in(s, c, p - 1) + 1);
        assert(false);
    }
}

/// The column the caret-to-visual direction derives never exceeds the row's
/// cluster count, so converting it back never clamps.
pub proof fn lemma_gcol_within_count(s: Seq<char>, c: int)
    requires
        0 <= c <= s.len(),
    ensures
        gb_in(s, line_start(s, row_of(s, c) as int), c) <= line_cluster_count(
            s,
            row_of(s, c) as int,
        ),
    {
    let row = row_of(s, c) as int;
    lemma_row_of_start(s, c);
    let ls = line_start(s, row);
    let le = line_end_from(s, ls);
    let ce = content_end(s, row);
    lemma_line_start(s, row);
    lemma_line_end_from(s, ls);
    lemma_content_end(s, row);
    if c <= ce {
        lemma_gb_in_concat(s, ls, c, ce);
    } else {
        // Only the line feed of a carriage-return/line-feed break lies past
        // the content end, and it is no boundary: the counts agree.
        assert(ce == le - 1 && c == le && s[le - 1] == '\r' && s[le] == '\n');
        assert(!is_gb(s, le));
        lemma_gb_in_concat(s, ls, ce, c);
        assert(gb_in(s, ce, c) == 0);
    }
}

/// Visual position of the absolute scalar index `abs_ci`: its row, and the
/// number of cluster boundaries between the row's start and the index.  An
/// index inside a cluster snaps down to the cluster's start, and an index on
/// an empty row yields column zero.
pub fn abs_char_to_line_gcol(text: &ropey::Rope, abs_ci: usize) -> (r: (usize, usize))
    requires
        (abs_ci as int) <= rope_chars(*text).len(),
    ensures
        r.0 as nat == row_of(rope_chars(*text), abs_ci as int),
        r.1 as nat == gb_in(
            rope_chars(*text),
            line_start(rope_chars(*text), row_of(rope_chars(*text), abs_ci as int) as int),
            abs_ci as int,
        ),
{
    let ghost s = rope_chars(*text);
    let row = text.char_to_line(abs_ci);
    proof {
        lemma_row_of_start(s, abs_ci as int);
    }
    let ls = text.line_to_char(row);
    let mut b: usize = ls;
    let mut g: usize = 0;
    loop
        invariant
            s == rope_chars(*text),
            row as nat == row_of(s, abs_ci as int),
            ls as int == line_start(s, row as int),
            ls <= b <= abs_ci,
            (abs_ci as int) <= s.len(),
            b == ls || is_gb(s, b as int),
            g as nat == gb_in(s, ls as int, b as int),
            (g as int) <= b - ls,
        decreases abs_ci - b,
    {
        if b == abs_ci {
            return (row, g);
        }
        let nb = next_grapheme_abs_char(text, b);
        if nb > abs_ci {
            proof {
                lemma_gb_in_concat(s, ls as int, b as int, abs_ci as int);
                lemma_gb_in_empty(s, b as int, abs_ci as int);
            }
            return (row, g);
        }
        proof {
            lemma_gb_in_concat(s, ls as int, b as int, nb as int);
            lemma_gb_in_step(s, b as int, nb as int);
            lemma_gb_in_le(s, ls as int, nb as int);
        }
        g = g + 1;
        b = nb;
    }
}

} // verus!
