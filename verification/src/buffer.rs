use vstd::prelude::*;
use crate::lines::{row_of, num_lines, line_start};
use crate::seg::{is_gb, seg_rest};
use unicode_segmentation::{GraphemeCursor, GraphemeIncomplete};

verus! {

#[verifier::external_type_specification]
#[verifier::external_body]
pub struct ExRope(ropey::Rope);

/// The contents of a rope, as the sequence of Unicode scalar values it
/// stores.  The contracts below all speak of the rope through this view.
pub uninterp spec fn rope_chars(r: ropey::Rope) -> Seq<char>;

/// Relies on ropey::Rope::new: a fresh rope is empty.
pub assume_specification[ ropey::Rope::new ]() -> (r: ropey::Rope)
    ensures
        rope_chars(r) == Seq::<char>::empty(),
;

/// Relies on ropey::Rope::len_chars: the number of scalars stored.
pub assume_specification[ ropey::Rope::len_chars ](text: &ropey::Rope) -> (n: usize)
    ensures
        n == rope_chars(*text).len(),
;

/// Relies on ropey::Rope::char: the scalar at a given index.
pub assume_specification[ ropey::Rope::char ](text: &ropey::Rope, char_idx: usize) -> (c: char)
    requires
        char_idx < rope_chars(*text).len(),
    ensures
        c == rope_chars(*text)[char_idx as int],
;

/// Relies on ropey::Rope::len_lines, with the rope built to split on line
/// feeds alone: one more line than there are line feeds.
pub assume_specification[ ropey::Rope::len_lines ](text: &ropey::Rope) -> (n: usize)
    ensures
        n == num_lines(rope_chars(*text)),
;

/// Relies on ropey::Rope::char_to_line, splitting on line feeds alone: the
/// row of a scalar index is the number of line feeds before it.
pub assume_specification[ ropey::Rope::char_to_line ](
    text: &ropey::Rope,
    char_idx: usize,
) -> (row: usize)
    requires
        char_idx <= rope_chars(*text).len(),
    ensures
        row == row_of(rope_chars(*text), char_idx as int),
;

/// Relies on ropey::Rope::line_to_char, splitting on line feeds alone: the
/// first scalar index of a row.
pub assume_specification[ ropey::Rope::line_to_char ](
    text: &ropey::Rope,
    line_idx: usize,
) -> (ci: usize)
    requires
        line_idx < num_lines(rope_chars(*text)),
    ensures
        ci == line_start(rope_chars(*text), line_idx as int),
;

/// Relies on ropey::Rope::insert_char: inserts one scalar at a scalar index.
pub assume_specification[ ropey::Rope::insert_char ](
    text: &mut ropey::Rope,
    char_idx: usize,
    ch: char,
)
    requires
        char_idx <= rope_chars(*old(text)).len(),
    ensures
        rope_chars(*final(text)) == rope_chars(*old(text)).insert(char_idx as int, ch),
;

/// Relies on ropey::Rope::remove: removes the scalar range `[start, end)`.
#[verifier::external_body]
pub fn rope_remove(text: &mut ropey::Rope, start: usize, end: usize)
    requires
        start <= end <= rope_chars(*old(text)).len(),
    ensures
        rope_chars(*final(text)) == rope_chars(*old(text)).subrange(0, start as int) + rope_chars(
            *old(text),
        ).subrange(end as int, rope_chars(*old(text)).len() as int),
{
    text.remove(start..end);
}

/// Relies on ropey::Rope::clone: a clone shares chunk storage and holds the
/// same scalars.
#[verifier::external_body]
pub fn rope_clone(text: &ropey::Rope) -> (r: ropey::Rope)
    ensures
        rope_chars(r) == rope_chars(*text),
{
    text.clone()
}

/// One in-progress boundary search: a segmentation cursor together with the
/// rope whose chunks feed it, the byte index of the chunk currently
/// supplied, and the chunk request a stalled attempt left behind.  The
/// fields stay hidden so that every value of this type was built by
/// `stepper_new` or `stepper_refill` and has only ever been fed chunks of
/// its own rope; the contracts of the step functions rely on that.
#[verifier::external_body]
pub struct Stepper {
    rope: ropey::Rope,
    cursor: GraphemeCursor,
    chunk_start: usize,
    pending: Option<GraphemeIncomplete>,
}

/// A stepper whose last attempt stalled on a chunk request; `stepper_refill`
/// answers the request and hands the search back.
#[verifier::external_body]
pub struct StalledStepper(Stepper);

/// The scalars of the text a stepper searches.
pub uninterp spec fn stepper_text(st: Stepper) -> Seq<char>;

/// The scalar index the stepper was seeded at.
pub uninterp spec fn stepper_seed(st: Stepper) -> int;

/// How many more times the search starting at this stepper can stall.  The
/// segmentation cursor's chunk protocol makes progress on every answered
/// request, so the number is finite and each refill lowers it; the retry
/// loops decrease on it.
pub uninterp spec fn stepper_work(st: Stepper) -> nat;

/// The scalars of the text a stalled stepper searches.
pub uninterp spec fn stalled_text(st: StalledStepper) -> Seq<char>;

/// The scalar index a stalled stepper was seeded at.
pub uninterp spec fn stalled_seed(st: StalledStepper) -> int;

/// How many more times the search can stall once this stepper is refilled.
pub uninterp spec fn stalled_work(st: StalledStepper) -> nat;

/// Outcome of one step attempt.  A found boundary or a text edge consumes
/// the stepper; only a stalled attempt hands it back, so a stepper that
/// reported a boundary can never be asked again.
pub enum StepTry {
    Found(usize),
    Edge,
    Stalled(StalledStepper),
}

/// Relies on ropey::Rope::char_to_byte, Rope::len_bytes, Rope::chunk_at_byte
/// and unicode_segmentation::GraphemeCursor::new: seeds an extended-cluster
/// boundary search at scalar index `at` of `text`.
#[verifier::external_body]
pub fn stepper_new(text: &ropey::Rope, at: usize) -> (st: Stepper)
    requires
        at <= rope_chars(*text).len(),
    ensures
        stepper_text(st) == rope_chars(*text),
        stepper_seed(st) == at as int,
{
    let b = text.char_to_byte(at);
    let (_, cs, _, _) = text.chunk_at_byte(b);
    let cursor = GraphemeCursor::new(b, text.len_bytes(), true);
    Stepper { rope: text.clone(), cursor, chunk_start: cs, pending: None }
}

/// Relies on unicode_segmentation::GraphemeCursor::next_boundary (and
/// ropey::Rope::chunk_at_byte, Rope::byte_to_char): a reported boundary is
/// the first extended-cluster boundary after the seed -- every skipped
/// position either fails the general segmentation rule or sits inside a
/// carriage-return/line-feed pair -- and the end of the text is reported
/// only when seeded there.
#[verifier::external_body]
pub fn stepper_try_next(st: Stepper) -> (r: StepTry)
    ensures
        match r {
            StepTry::Found(b) => stepper_seed(st) < b <= stepper_text(st).len() && is_gb(
                stepper_text(st),
                b as int,
            ) && (forall|k: int| stepper_seed(st) < k < b ==> !is_gb(stepper_text(st), k)) && (
            forall|k: int|
                stepper_seed(st) < k < b ==> !seg_rest(stepper_text(st), k) || (stepper_text(
                    st,
                )[k - 1] == '\r' && stepper_text(st)[k] == '\n')),
            StepTry::Edge => stepper_seed(st) == stepper_text(st).len(),
            StepTry::Stalled(st2) => stalled_text(st2) == stepper_text(st) && stalled_seed(st2)
                == stepper_seed(st) && stalled_work(st2) < stepper_work(st),
        },
{
    let mut st = st;
    let (chunk, cs, _, _) = st.rope.chunk_at_byte(st.chunk_start);
    match st.cursor.next_boundary(chunk, cs) {
        Ok(Some(b)) => StepTry::Found(st.rope.byte_to_char(b)),
        Ok(None) => StepTry::Edge,
        Err(e) => {
            st.pending = Some(e);
            StepTry::Stalled(StalledStepper(st))
        },
    }
}

/// Relies on unicode_segmentation::GraphemeCursor::prev_boundary (and
/// ropey::Rope::chunk_at_byte, Rope::byte_to_char): a reported boundary is
/// the last extended-cluster boundary before the seed -- every skipped
/// position either fails the general segmentation rule or sits inside a
/// carriage-return/line-feed pair -- and the start of the text is reported
/// only when seeded there.
#[verifier::external_body]
pub fn stepper_try_prev(st: Stepper) -> (r: StepTry)
    ensures
        match r {
            StepTry::Found(b) => 0 <= b < stepper_seed(st) && b <= stepper_text(st).len() && is_gb(
                stepper_text(st),
                b as int,
            ) && (forall|k: int| b < k < stepper_seed(st) ==> !is_gb(stepper_text(st), k)) && (
            forall|k: int|
                b < k < stepper_seed(st) ==> !seg_rest(stepper_text(st), k) || (stepper_text(
                    st,
                )[k - 1] == '\r' && stepper_text(st)[k] == '\n')),
            StepTry::Edge => stepper_seed(st) == 0,
            StepTry::Stalled(st2) => stalled_text(st2) == stepper_text(st) && stalled_seed(st2)
                == stepper_seed(st) && stalled_work(st2) < stepper_work(st),
        },
{
    let mut st = st;
    let (chunk, cs, _, _) = st.rope.chunk_at_byte(st.chunk_start);
    match st.cursor.prev_boundary(chunk, cs) {
        Ok(Some(b)) => StepTry::Found(st.rope.byte_to_char(b)),
        Ok(None) => StepTry::Edge,
        Err(e) => {
            st.pending = Some(e);
            StepTry::Stalled(StalledStepper(st))
        },
    }
}

/// Relies on ropey::Rope::chunk_at_byte and
/// unicode_segmentation::GraphemeCursor::provide_context / cur_cursor:
/// answers the chunk request a stalled attempt left behind -- the following
/// or preceding chunk, look-behind context ending at the requested byte, or
/// the chunk covering the cursor's own reported position -- and hands the
/// search back.
#[verifier::external_body]
pub fn stepper_refill(st: StalledStepper) -> (r: Stepper)
    ensures
        stepper_text(r) == stalled_text(st),
        stepper_seed(r) == stalled_seed(st),
        stepper_work(r) == stalled_work(st),
{
    let mut st = st.0;
    match st.pending.take() {
        Some(GraphemeIncomplete::PreContext(k)) => {
            let (c, cs, _, _) = st.rope.chunk_at_byte(k.saturating_sub(1));
            st.cursor.provide_context(&c[..k - cs], cs);
        },
        Some(GraphemeIncomplete::NextChunk) => {
            let (c, cs, _, _) = st.rope.chunk_at_byte(st.chunk_start);
            st.chunk_start = cs + c.len();
        },
        Some(GraphemeIncomplete::PrevChunk) => st.chunk_start = st.rope.chunk_at_byte(st.chunk_start.saturating_sub(1)).1,
        _ => st.chunk_start = st.rope.chunk_at_byte(st.cursor.cur_cursor()).1,
    }
    st
}

} // verus!
