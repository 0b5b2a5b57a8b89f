use vstd::prelude::*;

verus! {

/// Row of scalar index `i`: the number of line feeds strictly before `i`.
/// A line feed belongs to the row it terminates; the position just after it
/// starts the next row.
pub open spec fn row_of(s: Seq<char>, i: int) -> nat
    decreases i,
{
    if i <= 0 {
        0
    } else {
        row_of(s, i - 1) + (if s[i - 1] == '\n' { 1nat } else { 0nat })
    }
}

/// Number of rows of `s`: one more than the number of line feeds.  An empty
/// text has one (empty) row, and a text ending in a line feed ends with an
/// empty final row.
pub open spec fn num_lines(s: Seq<char>) -> nat {
    row_of(s, s.len() as int) + 1
}

/// Index of the first line feed at or after `i`, or the length of `s` if the
/// rest of the text holds none.
pub open spec fn line_end_from(s: Seq<char>, i: int) -> int
    decreases s.len() - i,
{
    if i < 0 || i >= s.len() {
        s.len() as int
    } else if s[i] == '\n' {
        i
    } else {
        line_end_from(s, i + 1)
    }
}

/// First scalar index of row `row`.
pub open spec fn line_start(s: Seq<char>, row: int) -> int
    decreases row,
{
    if row <= 0 {
        0
    } else {
        line_end_from(s, line_start(s, row - 1)) + 1
    }
}

/// Index one past the last scalar of row `row`'s terminator-free content:
/// the index of the line break that ends the row (with a carriage return
/// directly before the line feed belonging to the break), or the length of
/// `s` for the last row.
pub open spec fn content_end(s: Seq<char>, row: int) -> int {
    let ls = line_start(s, row);
    let le = line_end_from(s, ls);
    if le < s.len() && le > ls && s[le - 1] == '\r' {
        le - 1
    } else {
        le
    }
}

/// `row_of` never decreases as the index grows.
pub proof fn lemma_row_of_mono(s: Seq<char>, i: int, j: int)
    requires
        i <= j,
    ensures
        row_of(s, i) <= row_of(s, j),
    decreases j - i,
{
    if i < j {
        lemma_row_of_mono(s, i, j - 1);
    }
}

/// Two indices with no line feed between them lie on the same row.
pub proof fn lemma_row_of_same(s: Seq<char>, i: int, j: int)
    requires
        0 <= i <= j,
        forall|k: int| i <= k < j ==> s[k] != '\n',
    ensures
        row_of(s, i) == row_of(s, j),
    decreases j - i,
{
    if i < j {
        lemma_row_of_same(s, i, j - 1);
    }
}

/// Crossing a line feed raises the row by one.
pub proof fn lemma_row_of_cross(s: Seq<char>, i: int)
    requires
        0 <= i < s.len(),
        s[i] == '\n',
    ensures
        row_of(s, i + 1) == row_of(s, i) + 1,
{
}

/// `line_end_from` stays within `[i, s.len()]`, lands on a line feed or the
/// end, and skips no line feed.
pub proof fn lemma_line_end_from(s: Seq<char>, i: int)
    requires
        0 <= i <= s.len(),
    ensures
        i <= line_end_from(s, i) <= s.len(),
        line_end_from(s, i) == s.len() || s[line_end_from(s, i)] == '\n',
        forall|k: int| i <= k < line_end_from(s, i) ==> s[k] != '\n',
    decreases s.len() - i,
{
    if i < s.len() && s[i] != '\n' {
        lemma_line_end_from(s, i + 1);
    }
}

/// The first line feed at or after `i` is pinned by its witnesses.
pub proof fn lemma_line_end_from_unique(s: Seq<char>, i: int, e: int)
    requires
        0 <= i <= e <= s.len(),
        e == s.len() || s[e] == '\n',
        forall|k: int| i <= k < e ==> s[k] != '\n',
    ensures
        line_end_from(s, i) == e,
    decreases e - i,
{
    if i < e {
        assert(s[i] != '\n');
        lemma_line_end_from_unique(s, i + 1, e);
    }
}

/// For every real row: its start index lies in the text, opens the row
/// (`row_of` of the start is the row itself), and is preceded by a line feed
/// unless it is row zero.
pub proof fn lemma_line_start(s: Seq<char>, row: int)
    requires
        0 <= row < num_lines(s),
    ensures
        0 <= line_start(s, row) <= s.len(),
        row_of(s, line_start(s, row)) == row,
        row > 0 ==> line_start(s, row) > 0 && s[line_start(s, row) - 1] == '\n',
    decreases row,
{
    if row == 0 {
    } else {
        lemma_line_start(s, row - 1);
        let ls = line_start(s, row - 1);
        let le = line_end_from(s, ls);
        lemma_line_end_from(s, ls);
        lemma_row_of_same(s, ls, le);
        if le == s.len() {
            // Row `row - 1` would be the last row, contradicting
            // `row < num_lines(s)`.
            lemma_row_of_mono(s, le, s.len() as int);
            assert(false);
        } else {
            lemma_row_of_cross(s, le);
        }
    }
}

/// Every index of a row lies between the row's start and its line end, and
/// conversely all such indices report that row.
pub proof fn lemma_row_span(s: Seq<char>, row: int, p: int)
    requires
        0 <= row < num_lines(s),
        line_start(s, row) <= p <= line_end_from(s, line_start(s, row)),
        p <= s.len(),
    ensures
        row_of(s, p) == row,
{
    let ls = line_start(s, row);
    lemma_line_start(s, row);
    lemma_line_end_from(s, ls);
    lemma_row_of_same(s, ls, p);
}

/// An index's own row starts at or before it.
pub proof fn lemma_row_of_start(s: Seq<char>, i: int)
    requires
        0 <= i <= s.len(),
    ensures
        row_of(s, i) < num_lines(s),
        line_start(s, row_of(s, i) as int) <= i,
        i <= line_end_from(s, line_start(s, row_of(s, i) as int)),
    decreases i,
{
    lemma_row_of_mono(s, i, s.len() as int);
    let r = row_of(s, i) as int;
    if i == 0 {
        lemma_line_end_from(s, 0);
    } else if s[i - 1] == '\n' {
        lemma_row_of_start(s, i - 1);
        let r0 = row_of(s, i - 1) as int;
        let ls0 = line_start(s, r0);
        lemma_line_start(s, r0);
        lemma_line_end_from(s, ls0);
        // The line feed at `i - 1` ends row `r0`, so row `r0 + 1 == r`
        // starts exactly at `i`.
        assert(forall|k: int| ls0 <= k < i - 1 ==> s[k] != '\n');
        lemma_line_end_from_unique(s, ls0, i - 1);
        assert(line_start(s, r) == i);
        lemma_line_end_from(s, i);
    } else {
        lemma_row_of_start(s, i - 1);
        assert(row_of(s, i) == row_of(s, i - 1));
        let ls = line_start(s, r);
        lemma_line_start(s, r);
        lemma_line_end_from(s, ls);
        // `i - 1` is within its row and holds no line feed, so `i` is too.
        assert(i - 1 < line_end_from(s, ls)) by {
            if i - 1 == line_end_from(s, ls) {
                lemma_line_end_from(s, ls);
            }
        }
    }
}

/// The content of a row sits between its start and its content end, which in
/// turn sits at or before the line end.
pub proof fn lemma_content_end(s: Seq<char>, row: int)
    requires
        0 <= row < num_lines(s),
    ensures
        line_start(s, row) <= content_end(s, row) <= line_end_from(s, line_start(s, row)),
        line_end_from(s, line_start(s, row)) <= s.len(),
{
    lemma_line_start(s, row);
    lemma_line_end_from(s, line_start(s, row));
}

} // verus!
