use vstd::prelude::*;
use crate::buffer::{rope_chars, rope_clone, rope_remove};
use crate::graphemes::{
    next_grapheme_abs_char, prev_grapheme_abs_char, line_gcount, line_gcol_to_abs_char,
    abs_char_to_line_gcol, next_gb, prev_gb, at_row_col, line_cluster_count,
};
use crate::lines::{
    row_of, num_lines, line_start, lemma_row_of_start, lemma_row_of_mono, lemma_row_of_cross,
    lemma_row_span, lemma_line_start, lemma_line_end_from_unique, lemma_content_end,
};
use crate::seg::gb_in;
use crate::input::{EditorCommand, Key};

verus! {

/// Which set of key mappings the input layer applies.  The command core
/// itself is mode-agnostic; the mode only rides along in the state.
#[derive(Debug, Clone, Copy, PartialEq, Eq)]
pub enum EditorMode {
    Normal,
    Insert,
}

/// Multi-key input in flight: an accumulated count, a register, and the
/// prefix keys seen so far.  The input layer owns its meaning; the command
/// core only carries it.
pub struct Pending {
    pub count: Option<usize>,
    pub register: Option<char>,
    pub prefix: Vec<Key>,
}

/// The two pending values hold the same data.
pub open spec fn pending_eq(a: Pending, b: Pending) -> bool {
    a.count == b.count && a.register == b.register && a.prefix@ == b.prefix@
}

/// The pending value holds nothing.
pub open spec fn pending_cleared(p: Pending) -> bool {
    p.count is None && p.register is None && p.prefix@ == Seq::<Key>::empty()
}

impl Pending {
    /// Drop everything in flight.
    pub fn clear(&mut self)
        ensures
            pending_cleared(*final(self)),
    {
        self.count = None;
        self.register = None;
        self.prefix = Vec::new();
    }

    /// Remember one more prefix key.
    pub fn push(&mut self, k: Key)
        ensures
            final(self).count == old(self).count,
            final(self).register == old(self).register,
            final(self).prefix@ == old(self).prefix@.push(k),
    {
        self.prefix.push(k);
    }

    /// Consume the accumulated count; with none accumulated the count of a
    /// command is one.
    pub fn take_count(&mut self) -> (n: usize)
        ensures
            final(self).count is None,
            final(self).register == old(self).register,
            final(self).prefix@ == old(self).prefix@,
            n == match old(self).count {
                Some(c) => c,
                None => 1usize,
            },
    {
        let n = match self.count {
            Some(c) => c,
            None => 1,
        };
        self.count = None;
        n
    }
}

fn clone_pending(p: &Pending) -> (r: Pending)
    ensures
        pending_eq(*p, r),
{
    let mut prefix: Vec<Key> = Vec::new();
    let mut i: usize = 0;
    while i < p.prefix.len()
        invariant
            i <= p.prefix.len(),
            prefix@ == p.prefix@.subrange(0, i as int),
        decreases p.prefix.len() - i,
    {
        prefix.push(p.prefix[i]);
        proof {
            assert(prefix@ =~= p.prefix@.subrange(0, i + 1));
        }
        i = i + 1;
    }
    proof {
        assert(prefix@ =~= p.prefix@);
    }
    Pending { count: p.count, register: p.register, prefix }
}

/// The editor state: the text, the caret as an absolute scalar offset (the
/// canonical position), the visual row and grapheme column derived from it,
/// the sticky column for vertical runs, and the input layer's mode and
/// pending keys.  Commands never mutate a state; they return a new one.
pub struct Editor {
    pub cursor_row: usize,
    pub cursor_gcol: usize,
    pub desired_gcol: Option<usize>,
    pub text: ropey::Rope,
    pub caret_abs: usize,
    pub mode: EditorMode,
    pub pending: Pending,
}

/// The two cursor representations agree: the caret is in bounds, and the
/// visual row and grapheme column are the ones derived from it.
pub open spec fn synced(e: Editor) -> bool {
    let s = rope_chars(e.text);
    &&& (e.caret_abs as int) <= s.len()
    &&& e.cursor_row as nat == row_of(s, e.caret_abs as int)
    &&& e.cursor_gcol as nat == gb_in(
        s,
        line_start(s, row_of(s, e.caret_abs as int) as int),
        e.caret_abs as int,
    )
}

/// The two states are observably the same.
pub open spec fn same_view(a: Editor, b: Editor) -> bool {
    &&& rope_chars(b.text) == rope_chars(a.text)
    &&& b.cursor_row == a.cursor_row
    &&& b.cursor_gcol == a.cursor_gcol
    &&& b.caret_abs == a.caret_abs
    &&& b.desired_gcol == a.desired_gcol
    &&& b.mode == a.mode
    &&& pending_eq(a.pending, b.pending)
}

/// Everything the command core does not touch is carried over.
pub open spec fn carried(pre: Editor, post: Editor) -> bool {
    post.mode == pre.mode && pending_eq(pre.pending, post.pending)
}

/// The caret moved to the previous cluster boundary (staying put at the
/// buffer start), the visual position was re-derived, and the sticky column
/// was dropped.
pub open spec fn moved_left(pre: Editor, post: Editor) -> bool {
    let s = rope_chars(pre.text);
    &&& rope_chars(post.text) == s
    &&& prev_gb(s, pre.caret_abs as int, post.caret_abs as int)
    &&& post.desired_gcol is None
    &&& carried(pre, post)
}

/// The caret moved to the next cluster boundary (staying put at the buffer
/// end), the visual position was re-derived, and the sticky column was
/// dropped.
pub open spec fn moved_right(pre: Editor, post: Editor) -> bool {
    let s = rope_chars(pre.text);
    &&& rope_chars(post.text) == s
    &&& next_gb(s, pre.caret_abs as int, post.caret_abs as int)
    &&& post.desired_gcol is None
    &&& carried(pre, post)
}

/// The sticky column a vertical move aims for: the remembered one, or the
/// current column at the start of a vertical run.
pub open spec fn vertical_goal(pre: Editor) -> usize {
    match pre.desired_gcol {
        Some(d) => d,
        None => pre.cursor_gcol,
    }
}

/// The row changed by one, the column is the sticky goal clamped to the new
/// row's cluster count, the caret is the matching position on that row's
/// boundary grid, and the goal is remembered for the rest of the run.
pub open spec fn moved_vertically(pre: Editor, post: Editor, new_row: int) -> bool {
    let s = rope_chars(pre.text);
    let d = vertical_goal(pre);
    let cnt = line_cluster_count(s, new_row);
    &&& rope_chars(post.text) == s
    &&& post.cursor_row as int == new_row
    &&& post.desired_gcol == Some(d)
    &&& post.cursor_gcol as nat == (if (d as nat) <= cnt {
        d as nat
    } else {
        cnt
    })
    &&& at_row_col(s, new_row, post.caret_abs as int)
    &&& gb_in(s, line_start(s, new_row), post.caret_abs as int) == post.cursor_gcol as nat
    &&& carried(pre, post)
}

/// Moving up is a no-op on the first row; otherwise a vertical move to the
/// row above.
pub open spec fn moved_up(pre: Editor, post: Editor) -> bool {
    if pre.cursor_row == 0 {
        same_view(pre, post)
    } else {
        moved_vertically(pre, post, pre.cursor_row as int - 1)
    }
}

/// Moving down is a no-op on the last row; otherwise a vertical move to the
/// row below.
pub open spec fn moved_down(pre: Editor, post: Editor) -> bool {
    if pre.cursor_row as int + 1 >= num_lines(rope_chars(pre.text)) {
        same_view(pre, post)
    } else {
        moved_vertically(pre, post, pre.cursor_row as int + 1)
    }
}

/// The scalar was inserted at the caret.  A line feed always opens a fresh
/// row: the caret lands right after it, at column zero of the next row.  Any
/// other scalar leaves the caret at the next cluster boundary of the new
/// text, so a combining mark joins its base.  The sticky column is dropped.
pub open spec fn inserted(pre: Editor, c: char, post: Editor) -> bool {
    let s = rope_chars(pre.text);
    let at = pre.caret_abs as int;
    let s2 = s.insert(at, c);
    &&& rope_chars(post.text) == s2
    &&& (if c == '\n' {
        post.caret_abs == pre.caret_abs + 1 && post.cursor_gcol == 0 && post.cursor_row as nat
            == row_of(s, at) + 1
    } else {
        next_gb(s2, at, post.caret_abs as int)
    })
    &&& post.desired_gcol is None
    &&& carried(pre, post)
}

/// The new text is the old one with the scalar range `[a, b)` removed.
pub open spec fn removed_range(s: Seq<char>, a: int, b: int, post: Editor) -> bool {
    rope_chars(post.text) == s.subrange(0, a) + s.subrange(b, s.len() as int)
}

/// The unit before the caret was deleted: a carriage-return/line-feed pair
/// as one unit, a lone line feed or carriage return alone, and otherwise the
/// whole previous grapheme cluster.  The caret lands at the deletion start.
/// At the buffer start nothing changes.  The sticky column is dropped.
pub open spec fn backspaced(pre: Editor, post: Editor) -> bool {
    let s = rope_chars(pre.text);
    let here = pre.caret_abs as int;
    &&& (if here == 0 {
        rope_chars(post.text) == s && post.caret_abs == 0 && post.cursor_row == pre.cursor_row
            && post.cursor_gcol == pre.cursor_gcol
    } else if s[here - 1] == '\n' {
        if here >= 2 && s[here - 2] == '\r' {
            removed_range(s, here - 2, here, post) && post.caret_abs as int == here - 2
        } else {
            removed_range(s, here - 1, here, post) && post.caret_abs as int == here - 1
        }
    } else if s[here - 1] == '\r' {
        removed_range(s, here - 1, here, post) && post.caret_abs as int == here - 1
    } else {
        prev_gb(s, here, post.caret_abs as int) && removed_range(
            s,
            post.caret_abs as int,
            here,
            post,
        )
    })
    &&& post.desired_gcol is None
    &&& carried(pre, post)
}

/// The unit at the caret was deleted: a line feed, or a carriage return with
/// its following line feed, as one unit, and otherwise the whole next
/// grapheme cluster.  The caret's absolute offset does not move; only the
/// visual position is re-derived.  At the buffer end nothing changes.  The
/// sticky column is dropped.
pub open spec fn deleted(pre: Editor, post: Editor) -> bool {
    let s = rope_chars(pre.text);
    let here = pre.caret_abs as int;
    &&& post.caret_abs == pre.caret_abs
    &&& (if here == s.len() {
        rope_chars(post.text) == s && post.cursor_row == pre.cursor_row && post.cursor_gcol
            == pre.cursor_gcol
    } else if s[here] == '\n' {
        removed_range(s, here, here + 1, post)
    } else if s[here] == '\r' {
        if here + 1 < s.len() && s[here + 1] == '\n' {
            removed_range(s, here, here + 2, post)
        } else {
            removed_range(s, here, here + 1, post)
        }
    } else {
        exists|e: int| #[trigger] next_gb(s, here, e) && removed_range(s, here, e, post)
    })
    &&& post.desired_gcol is None
    &&& carried(pre, post)
}

/// Only the mode changed.
pub open spec fn mode_set(pre: Editor, post: Editor, m: EditorMode) -> bool {
    &&& rope_chars(post.text) == rope_chars(pre.text)
    &&& post.cursor_row == pre.cursor_row
    &&& post.cursor_gcol == pre.cursor_gcol
    &&& post.caret_abs == pre.caret_abs
    &&& post.desired_gcol == pre.desired_gcol
    &&& post.mode == m
    &&& pending_eq(pre.pending, post.pending)
}

/// What each command leaves behind.  Commands outside the core set --
/// multi-key editing commands the input layer may emit but this core does
/// not implement -- leave the state unchanged, as Quit and Unknown do.
pub open spec fn command_post(pre: Editor, command: EditorCommand, post: Editor) -> bool {
    match command {
        EditorCommand::MoveLeft => moved_left(pre, post),
        EditorCommand::MoveRight => moved_right(pre, post),
        EditorCommand::MoveUp => moved_up(pre, post),
        EditorCommand::MoveDown => moved_down(pre, post),
        EditorCommand::InsertChar(c) => inserted(pre, c, post),
        EditorCommand::InsertNewline => inserted(pre, '\n', post),
        EditorCommand::Backspace => backspaced(pre, post),
        EditorCommand::Delete => deleted(pre, post),
        EditorCommand::EnterInsertMode => mode_set(pre, post, EditorMode::Insert),
        EditorCommand::EnterNormalMode => mode_set(pre, post, EditorMode::Normal),
        _ => same_view(pre, post),
    }
}

impl Editor {
    /// A fresh, empty editor: empty buffer, caret at the origin, no sticky
    /// column, insert mode, nothing pending.
    pub fn new() -> (r: Editor)
        ensures
            synced(r),
            rope_chars(r.text) == Seq::<char>::empty(),
            r.caret_abs == 0,
            r.cursor_row == 0,
            r.cursor_gcol == 0,
            r.desired_gcol is None,
            r.mode == EditorMode::Insert,
            pending_cleared(r.pending),
    {
        Editor {
            cursor_row: 0,
            cursor_gcol: 0,
            desired_gcol: None,
            text: ropey::Rope::new(),
            caret_abs: 0,
            mode: EditorMode::Insert,
            pending: Pending { count: None, register: None, prefix: Vec::new() },
        }
    }

    /// The caret's absolute scalar offset: the canonical position.
    pub fn abs_char_at_cursor(&self) -> (r: usize)
        ensures
            r == self.caret_abs,
    {
        self.caret_abs
    }

    /// A snapshot of this state: the same text, position and input state as
    /// a fresh value, sharing the rope's chunks.
    pub fn snapshot(&self) -> (r: Editor)
        ensures
            same_view(*self, r),
    {
        Editor {
            cursor_row: self.cursor_row,
            cursor_gcol: self.cursor_gcol,
            desired_gcol: self.desired_gcol,
            text: rope_clone(&self.text),
            caret_abs: self.caret_abs,
            mode: self.mode,
            pending: clone_pending(&self.pending),
        }
    }

    fn do_move_left(&self) -> (r: Editor)
        requires
            synced(*self),
        ensures
            synced(r),
            moved_left(*self, r),
    {
        let prev = prev_grapheme_abs_char(&self.text, self.caret_abs);
        let (row, gcol) = abs_char_to_line_gcol(&self.text, prev);
        Editor {
            cursor_row: row,
            cursor_gcol: gcol,
            desired_gcol: None,
            text: rope_clone(&self.text),
            caret_abs: prev,
            mode: self.mode,
            pending: clone_pending(&self.pending),
        }
    }

    fn do_move_right(&self) -> (r: Editor)
        requires
            synced(*self),
        ensures
            synced(r),
            moved_right(*self, r),
    {
        let next = next_grapheme_abs_char(&self.text, self.caret_abs);
        let (row, gcol) = abs_char_to_line_gcol(&self.text, next);
        Editor {
            cursor_row: row,
            cursor_gcol: gcol,
            desired_gcol: None,
            text: rope_clone(&self.text),
            caret_abs: next,
            mode: self.mode,
            pending: clone_pending(&self.pending),
        }
    }

    /// The shared tail of a vertical move, once the target row is known to
    /// exist.
    fn vertical_to(&self, new_row: usize) -> (r: Editor)
        requires
            synced(*self),
            (new_row as int) < num_lines(rope_chars(self.text)),
        ensures
            synced(r),
            moved_vertically(*self, r, new_row as int),
    {
        let ghost s = rope_chars(self.text);
        let d = match self.desired_gcol {
            Some(dd) => dd,
            None => self.cursor_gcol,
        };
        let cnt = line_gcount(&self.text, new_row);
        let tgt = if d < cnt {
            d
        } else {
            cnt
        };
        let ca = line_gcol_to_abs_char(&self.text, new_row, tgt);
        proof {
            lemma_line_start(s, new_row as int);
            lemma_content_end(s, new_row as int);
            lemma_row_span(s, new_row as int, ca as int);
        }
        Editor {
            cursor_row: new_row,
            cursor_gcol: tgt,
            desired_gcol: Some(d),
            text: rope_clone(&self.text),
            caret_abs: ca,
            mode: self.mode,
            pending: clone_pending(&self.pending),
        }
    }

    fn do_move_up(&self) -> (r: Editor)
        requires
            synced(*self),
        ensures
            synced(r),
            moved_up(*self, r),
    {
        if self.cursor_row == 0 {
            return self.snapshot();
        }
        proof {
            lemma_row_of_start(rope_chars(self.text), self.caret_abs as int);
        }
        self.vertical_to(self.cursor_row - 1)
    }

    fn do_move_down(&self) -> (r: Editor)
        requires
            synced(*self),
        ensures
            synced(r),
            moved_down(*self, r),
    {
        let nl = self.text.len_lines();
        if self.cursor_row >= nl - 1 {
            return self.snapshot();
        }
        self.vertical_to(self.cursor_row + 1)
    }

    fn do_insert_char(&self, c: char) -> (r: Editor)
        requires
            synced(*self),
        ensures
            synced(r),
            inserted(*self, c, r),
    {
        let ghost s = rope_chars(self.text);
        let at = self.caret_abs;
        let mut text = rope_clone(&self.text);
        text.insert_char(at, c);
        let ghost s2 = rope_chars(text);
        let len2 = text.len_chars();
        let ca: usize;
        if c == '\n' {
            ca = at + 1;
        } else {
            ca = next_grapheme_abs_char(&text, at);
        }
        let (row, gcol) = abs_char_to_line_gcol(&text, ca);
        proof {
            if c == '\n' {
                lemma_insert_newline(s, at as int);
            }
        }
        Editor {
            cursor_row: row,
            cursor_gcol: gcol,
            desired_gcol: None,
            text,
            caret_abs: ca,
            mode: self.mode,
            pending: clone_pending(&self.pending),
        }
    }

    fn do_backspace(&self) -> (r: Editor)
        requires
            synced(*self),
        ensures
            synced(r),
            backspaced(*self, r),
    {
        let ghost s = rope_chars(self.text);
        let here = self.caret_abs;
        if here == 0 {
            let mut r = self.snapshot();
            r.desired_gcol = None;
            return r;
        }
        let prev_c = self.text.char(here - 1);
        let start: usize;
        if prev_c == '\n' {
            if here >= 2 {
                let c2 = self.text.char(here - 2);
                if c2 == '\r' {
                    start = here - 2;
                } else {
                    start = here - 1;
                }
            } else {
                start = here - 1;
            }
        } else if prev_c == '\r' {
            start = here - 1;
        } else {
            start = prev_grapheme_abs_char(&self.text, here);
        }
        let mut text = rope_clone(&self.text);
        rope_remove(&mut text, start, here);
        let (row, gcol) = abs_char_to_line_gcol(&text, start);
        Editor {
            cursor_row: row,
            cursor_gcol: gcol,
            desired_gcol: None,
            text,
            caret_abs: start,
            mode: self.mode,
            pending: clone_pending(&self.pending),
        }
    }

    fn do_delete(&self) -> (r: Editor)
        requires
            synced(*self),
        ensures
            synced(r),
            deleted(*self, r),
    {
        let ghost s = rope_chars(self.text);
        let here = self.caret_abs;
        let len = self.text.len_chars();
        if here == len {
            let mut r = self.snapshot();
            r.desired_gcol = None;
            return r;
        }
        let c0 = self.text.char(here);
        let end: usize;
        if c0 == '\n' {
            end = here + 1;
        } else if c0 == '\r' {
            if here + 1 < len {
                let c1 = self.text.char(here + 1);
                if c1 == '\n' {
                    end = here + 2;
                } else {
                    end = here + 1;
                }
            } else {
                end = here + 1;
            }
        } else {
            end = next_grapheme_abs_char(&self.text, here);
            proof {
                assert(next_gb(s, here as int, end as int));
            }
        }
        let mut text = rope_clone(&self.text);
        rope_remove(&mut text, here, end);
        let (row, gcol) = abs_char_to_line_gcol(&text, here);
        Editor {
            cursor_row: row,
            cursor_gcol: gcol,
            desired_gcol: None,
            text,
            caret_abs: here,
            mode: self.mode,
            pending: clone_pending(&self.pending),
        }
    }

    fn with_mode(&self, m: EditorMode) -> (r: Editor)
        ensures
            mode_set(*self, r, m),
    {
        let mut r = self.snapshot();
        r.mode = m;
        r
    }

    /// Apply one command as a pure transition: the state is read, never
    /// changed, and a complete new state comes back.  Every command
    /// succeeds; at a buffer edge the commands that would leave it are
    /// no-ops.
    pub fn handle_command(&self, command: EditorCommand) -> (r: Editor)
        requires
            synced(*self),
        ensures
            synced(r),
            command_post(*self, command, r),
    {
        match command {
            EditorCommand::MoveLeft => self.do_move_left(),
            EditorCommand::MoveRight => self.do_move_right(),
            EditorCommand::MoveUp => self.do_move_up(),
            EditorCommand::MoveDown => self.do_move_down(),
            EditorCommand::InsertChar(c) => self.do_insert_char(c),
            EditorCommand::InsertNewline => self.do_insert_char('\n'),
            EditorCommand::Backspace => self.do_backspace(),
            EditorCommand::Delete => self.do_delete(),
            EditorCommand::EnterInsertMode => self.with_mode(EditorMode::Insert),
            EditorCommand::EnterNormalMode => self.with_mode(EditorMode::Normal),
            _ => self.snapshot(),
        }
    }
}

/// At a buffer edge the matching move is a no-op: a left move with the
/// caret at the very start and a right move with it at the very end keep
/// the position and the text; an up move on the first row and a down move
/// on the last row keep the whole state.
pub proof fn lemma_edge_moves_are_noops(pre: Editor, post: Editor)
    requires
        synced(pre),
        synced(post),
    ensures
        moved_left(pre, post) && pre.caret_abs == 0 ==> post.caret_abs == pre.caret_abs
            && post.cursor_row == pre.cursor_row && post.cursor_gcol == pre.cursor_gcol
            && rope_chars(post.text) == rope_chars(pre.text),
        moved_right(pre, post) && pre.caret_abs as int == rope_chars(pre.text).len()
            ==> post.caret_abs == pre.caret_abs && post.cursor_row == pre.cursor_row
            && post.cursor_gcol == pre.cursor_gcol && rope_chars(post.text) == rope_chars(
            pre.text,
        ),
        moved_up(pre, post) && pre.cursor_row == 0 ==> same_view(pre, post),
        moved_down(pre, post) && pre.cursor_row as int + 1 >= num_lines(rope_chars(pre.text))
            ==> same_view(pre, post),
{
}

/// The column derived from any in-bounds caret stays within its row's
/// cluster count.
pub proof fn lemma_synced_gcol_within_count(e: Editor)
    requires
        synced(e),
    ensures
        e.cursor_gcol as nat <= line_cluster_count(rope_chars(e.text), e.cursor_row as int),
{
    crate::graphemes::lemma_gcol_within_count(rope_chars(e.text), e.caret_abs as int);
}

/// Sticky column: when a vertical run starts with a move down and comes
/// straight back up, the caret returns to its original row and column,
/// whatever the row below could hold -- the goal column is remembered, not
/// the clamped one.
pub proof fn lemma_sticky_column(e1: Editor, e2: Editor, e3: Editor)
    requires
        synced(e1),
        synced(e2),
        synced(e3),
        e1.desired_gcol is None,
        e1.cursor_row as int + 1 < num_lines(rope_chars(e1.text)),
        moved_down(e1, e2),
        moved_up(e2, e3),
    ensures
        e3.cursor_row == e1.cursor_row,
        e3.cursor_gcol == e1.cursor_gcol,
{
    lemma_synced_gcol_within_count(e1);
}

/// Inserting a line feed at `at` starts a fresh row right after it: the
/// position after the line feed is the start of its row, one row below the
/// insertion row.
proof fn lemma_insert_newline(s: Seq<char>, at: int)
    requires
        0 <= at <= s.len(),
    ensures
        ({
            let s2 = s.insert(at, '\n');
            &&& row_of(s2, at + 1) == row_of(s, at) + 1
            &&& line_start(s2, row_of(s2, at + 1) as int) == at + 1
        }),
{
    let s2 = s.insert(at, '\n');
    lemma_row_of_prefix(s, s2, at);
    assert(s2[at] == '\n');
    lemma_row_of_cross(s2, at);
    lemma_row_of_start(s2, at);
    let r0 = row_of(s2, at) as int;
    let ls0 = line_start(s2, r0);
    lemma_line_start(s2, r0);
    lemma_no_lf_within_row(s2, ls0, at);
    lemma_line_end_from_unique(s2, ls0, at);
    assert(line_start(s2, r0 + 1) == at + 1);
}

/// Two texts that agree up to `i` agree on the row of `i`.
proof fn lemma_row_of_prefix(s: Seq<char>, s2: Seq<char>, i: int)
    requires
        0 <= i <= s.len(),
        i <= s2.len(),
        forall|k: int| 0 <= k < i ==> s2[k] == s[k],
    ensures
        row_of(s2, i) == row_of(s, i),
    decreases i,
{
    if i > 0 {
        lemma_row_of_prefix(s, s2, i - 1);
    }
}

/// Two positions on the same row have no line feed between them.
proof fn lemma_no_lf_within_row(s: Seq<char>, a: int, b: int)
    requires
        0 <= a <= b <= s.len(),
        row_of(s, a) == row_of(s, b),
    ensures
        forall|k: int| a <= k < b ==> s[k] != '\n',
{
    assert forall|k: int| a <= k < b implies s[k] != '\n' by {
        if s[k] == '\n' {
            lemma_row_of_cross(s, k);
            lemma_row_of_mono(s, a, k);
            lemma_row_of_mono(s, k + 1, b);
        }
    }
}

} // verus!

