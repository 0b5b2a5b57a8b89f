use vstd::prelude::*;
use crate::editor::{EditorMode, Pending, pending_eq, pending_cleared};

verus! {

/// A key press, reduced to what the mappings read.
#[derive(Debug, Clone, Copy, PartialEq, Eq)]
pub enum Key {
    Char(char),
    Esc,
    Enter,
    Up,
    Down,
    Left,
    Right,
    Backspace,
    Delete,
    Other,
}

/// A finished editing command.  The core implements the single-cursor set;
/// the multi-key commands ride through it unchanged.
#[derive(Debug, Clone, Copy, PartialEq, Eq)]
pub enum EditorCommand {
    MoveUp,
    MoveDown,
    MoveLeft,
    MoveRight,
    InsertChar(char),
    InsertNewline,
    DeleteLine { count: usize },
    MoveToStartOfFile,
    WordForward { count: usize },
    Backspace,
    Delete,
    EnterInsertMode,
    EnterNormalMode,
    Quit,
    Unknown,
}

/// What one key press amounts to: a finished command, more keys pending, or
/// nothing.
#[derive(Debug, Clone, Copy, PartialEq, Eq)]
pub enum KeyMappingResult {
    Command(EditorCommand),
    UpdatePending,
    Noop,
}

/// The decimal digit a key carries, if any.
pub open spec fn digit_of(key: Key) -> Option<int> {
    match key {
        Key::Char(c) => if 48 <= c as u32 <= 57 {
            Some((c as u32) as int - 48)
        } else {
            None
        },
        _ => None,
    }
}

/// One more decimal digit appended to an accumulated count, saturating at
/// the largest representable count.
pub open spec fn count_with_digit(cur: Option<usize>, d: int) -> usize {
    let c = match cur {
        Some(n) => n as int,
        None => 0,
    };
    if c * 10 + d <= usize::MAX {
        (c * 10 + d) as usize
    } else {
        usize::MAX
    }
}

/// The count a command consumes: the accumulated one, or one.
pub open spec fn count_or_one(cur: Option<usize>) -> usize {
    match cur {
        Some(n) => n,
        None => 1usize,
    }
}

/// What a key maps to in insert mode.
pub open spec fn insert_mode_result(key: Key) -> KeyMappingResult {
    match key {
        Key::Char(c) => KeyMappingResult::Command(EditorCommand::InsertChar(c)),
        Key::Enter => KeyMappingResult::Command(EditorCommand::InsertNewline),
        Key::Backspace => KeyMappingResult::Command(EditorCommand::Backspace),
        Key::Delete => KeyMappingResult::Command(EditorCommand::Delete),
        Key::Up => KeyMappingResult::Command(EditorCommand::MoveUp),
        Key::Down => KeyMappingResult::Command(EditorCommand::MoveDown),
        Key::Left => KeyMappingResult::Command(EditorCommand::MoveLeft),
        Key::Right => KeyMappingResult::Command(EditorCommand::MoveRight),
        _ => KeyMappingResult::Noop,
    }
}

/// What a key maps to in normal mode when no prefix applies, given the
/// pending state it starts from: `d` and `g` open a prefix, `i` enters
/// insert mode, `w` consumes the count for a word motion, the arrow and
/// deletion keys map directly, and anything else is nothing.
pub open spec fn fresh_normal_post(
    key: Key,
    base_count: Option<usize>,
    base_register: Option<char>,
    base_prefix: Seq<Key>,
    post: Pending,
    r: KeyMappingResult,
) -> bool {
    let kept = post.count == base_count && post.register == base_register && post.prefix@
        == base_prefix;
    match key {
        Key::Char(c) => {
            if c == 'd' || c == 'g' {
                post.count == base_count && post.register == base_register && post.prefix@
                    == base_prefix.push(key) && r == KeyMappingResult::UpdatePending
            } else if c == 'i' {
                kept && r == KeyMappingResult::Command(EditorCommand::EnterInsertMode)
            } else if c == 'w' {
                post.count is None && post.register == base_register && post.prefix@ == base_prefix
                    && r == KeyMappingResult::Command(
                    EditorCommand::WordForward { count: count_or_one(base_count) },
                )
            } else {
                kept && r == KeyMappingResult::Noop
            }
        },
        Key::Left => kept && r == KeyMappingResult::Command(EditorCommand::MoveLeft),
        Key::Right => kept && r == KeyMappingResult::Command(EditorCommand::MoveRight),
        Key::Up => kept && r == KeyMappingResult::Command(EditorCommand::MoveUp),
        Key::Down => kept && r == KeyMappingResult::Command(EditorCommand::MoveDown),
        Key::Backspace => kept && r == KeyMappingResult::Command(EditorCommand::Backspace),
        Key::Delete => kept && r == KeyMappingResult::Command(EditorCommand::Delete),
        _ => kept && r == KeyMappingResult::Noop,
    }
}

/// What a key maps to in normal mode.  Digits accumulate into the count; a
/// second `d` after a `d` prefix finishes a line deletion with that count; a
/// second `g` after a `g` prefix jumps to the start; any other key after a
/// prefix drops the prefix, the count and the register, and is read fresh.
pub open spec fn normal_mode_post(
    key: Key,
    pre: Pending,
    post: Pending,
    r: KeyMappingResult,
) -> bool {
    if digit_of(key) is Some {
        post.count == Some(count_with_digit(pre.count, digit_of(key)->Some_0)) && post.register
            == pre.register && post.prefix@ == pre.prefix@ && r == KeyMappingResult::UpdatePending
    } else if pre.prefix@ == seq![Key::Char('d')] && key == Key::Char('d') {
        pending_cleared(post) && r == KeyMappingResult::Command(
            EditorCommand::DeleteLine { count: count_or_one(pre.count) },
        )
    } else if pre.prefix@ == seq![Key::Char('g')] && key == Key::Char('g') {
        pending_cleared(post) && r == KeyMappingResult::Command(EditorCommand::MoveToStartOfFile)
    } else if pre.prefix@ == seq![Key::Char('d')] || pre.prefix@ == seq![Key::Char('g')] {
        fresh_normal_post(key, None, None, Seq::<Key>::empty(), post, r)
    } else {
        fresh_normal_post(key, pre.count, pre.register, pre.prefix@, post, r)
    }
}

/// What `map_key` leaves behind: escape always quits and drops everything
/// pending; otherwise the mode's mapping applies.
pub open spec fn map_key_post(
    key: Key,
    mode: EditorMode,
    pre: Pending,
    post: Pending,
    r: KeyMappingResult,
) -> bool {
    if key == Key::Esc {
        pending_cleared(post) && r == KeyMappingResult::Command(EditorCommand::Quit)
    } else {
        match mode {
            EditorMode::Insert => pending_eq(pre, post) && r == insert_mode_result(key),
            EditorMode::Normal => normal_mode_post(key, pre, post, r),
        }
    }
}

/// Turn one key press, in the given mode and with the given multi-key state,
/// into a finished command, a request for more keys, or nothing.
pub fn map_key(key: Key, mode: EditorMode, pending: &mut Pending) -> (r: KeyMappingResult)
    ensures
        map_key_post(key, mode, *old(pending), *final(pending), r),
{
    if let Key::Esc = key {
        pending.clear();
        return KeyMappingResult::Command(EditorCommand::Quit);
    }
    match mode {
        EditorMode::Insert => {
            match key {
                Key::Char(c) => KeyMappingResult::Command(EditorCommand::InsertChar(c)),
                Key::Enter => KeyMappingResult::Command(EditorCommand::InsertNewline),
                Key::Backspace => KeyMappingResult::Command(EditorCommand::Backspace),
                Key::Delete => KeyMappingResult::Command(EditorCommand::Delete),
                Key::Up => KeyMappingResult::Command(EditorCommand::MoveUp),
                Key::Down => KeyMappingResult::Command(EditorCommand::MoveDown),
                Key::Left => KeyMappingResult::Command(EditorCommand::MoveLeft),
                Key::Right => KeyMappingResult::Command(EditorCommand::MoveRight),
                _ => KeyMappingResult::Noop,
            }
        },
        EditorMode::Normal => {
            if let Key::Char(c) = key {
                let v = c as u32;
                if 48 <= v && v <= 57 {
                    let d = (v - 48) as usize;
                    let cur: usize = match pending.count {
                        Some(n) => n,
                        None => 0,
                    };
                    let nc: usize = match cur.checked_mul(10) {
                        Some(m) => match m.checked_add(d) {
                            Some(x) => x,
                            None => usize::MAX,
                        },
                        None => usize::MAX,
                    };
                    pending.count = Some(nc);
                    return KeyMappingResult::UpdatePending;
                }
            }
            let mut prefix_d = false;
            let mut prefix_g = false;
            if pending.prefix.len() == 1 {
                if let Key::Char(pc) = pending.prefix[0] {
                    if pc == 'd' {
                        prefix_d = true;
                    } else if pc == 'g' {
                        prefix_g = true;
                    }
                }
            }
            proof {
                if prefix_d {
                    assert(pending.prefix@ =~= seq![Key::Char('d')]);
                } else {
                    assert(pending.prefix@ != seq![Key::Char('d')]) by {
                        if pending.prefix@ == seq![Key::Char('d')] {
                            assert(pending.prefix@[0] == Key::Char('d'));
                        }
                    }
                }
                if prefix_g {
                    assert(pending.prefix@ =~= seq![Key::Char('g')]);
                } else {
                    assert(pending.prefix@ != seq![Key::Char('g')]) by {
                        if pending.prefix@ == seq![Key::Char('g')] {
                            assert(pending.prefix@[0] == Key::Char('g'));
                        }
                    }
                }
            }
            let mut key_char = ' ';
            let mut is_char = false;
            if let Key::Char(c) = key {
                key_char = c;
                is_char = true;
            }
            if prefix_d && is_char && key_char == 'd' {
                let n = pending.take_count();
                pending.clear();
                return KeyMappingResult::Command(EditorCommand::DeleteLine { count: n });
            }
            if prefix_g && is_char && key_char == 'g' {
                pending.clear();
                return KeyMappingResult::Command(EditorCommand::MoveToStartOfFile);
            }
            if prefix_d || prefix_g {
                pending.clear();
            }
            match key {
                Key::Char(c) => {
                    if c == 'd' || c == 'g' {
                        pending.push(key);
                        KeyMappingResult::UpdatePending
                    } else if c == 'i' {
                        KeyMappingResult::Command(EditorCommand::EnterInsertMode)
                    } else if c == 'w' {
                        let n = pending.take_count();
                        KeyMappingResult::Command(EditorCommand::WordForward { count: n })
                    } else {
                        KeyMappingResult::Noop
                    }
                },
                Key::Left => KeyMappingResult::Command(EditorCommand::MoveLeft),
                Key::Right => KeyMappingResult::Command(EditorCommand::MoveRight),
                Key::Up => KeyMappingResult::Command(EditorCommand::MoveUp),
                Key::Down => KeyMappingResult::Command(EditorCommand::MoveDown),
                Key::Backspace => KeyMappingResult::Command(EditorCommand::Backspace),
                Key::Delete => KeyMappingResult::Command(EditorCommand::Delete),
                _ => KeyMappingResult::Noop,
            }
        },
    }
}

} // verus!
