use editor_core::editor::Editor;
use editor_core::input::EditorCommand;

fn type_str(mut ed: Editor, s: &str) -> Editor {
    for ch in s.chars() {
        ed = ed.handle_command(EditorCommand::InsertChar(ch));
    }
    ed
}

#[test]
fn editor_test_insert_char() {
    let editor = Editor::new();
    let updated = editor.handle_command(EditorCommand::InsertChar('a'));

    assert_eq!(updated.text.line(0).to_string(), "a");
    assert_eq!(updated.cursor_gcol, 1);
    assert_eq!(updated.cursor_row, 0);
}

#[test]
fn test_move_down_and_up() {
    let mut editor = Editor::new();
    editor = editor.handle_command(EditorCommand::InsertChar('a'));
    editor = editor.handle_command(EditorCommand::InsertChar('\n'));
    editor = editor.handle_command(EditorCommand::InsertChar('b'));

    // After typing "a\nb", we have two lines: "a\n" and "b"
    // MoveDown should keep us at last line (row 1)
    let down = editor.handle_command(EditorCommand::MoveDown);
    assert_eq!(down.cursor_row, 1);

    let up = down.handle_command(EditorCommand::MoveUp);
    assert_eq!(up.cursor_row, 0);
}

#[test]
fn emoji_is_one_step() {
    // "a👨‍👩‍👧‍👦b" — family emoji is a single grapheme made of multiple scalars.
    let mut ed = Editor::new();
    for ch in "a👨‍👩‍👧‍👦b".chars() {
        ed = ed.handle_command(EditorCommand::InsertChar(ch));
    }

    // Move left once: should jump from after 'b' to start of 'b'
    ed = ed.handle_command(EditorCommand::MoveLeft);
    assert_eq!(ed.cursor_row, 0);
    assert_eq!(ed.cursor_gcol, 2); // a, [emoji], |b|

    // Move left once more: should skip whole emoji in one step
    ed = ed.handle_command(EditorCommand::MoveLeft);
    assert_eq!(ed.cursor_gcol, 1); // a, |[emoji], b
}

#[test]
fn combining_mark_is_one_step() {
    // "e\u{0301}" = "é" precomposed via combining acute
    let mut ed = Editor::new();
    for ch in "e\u{0301}".chars() {
        ed = ed.handle_command(EditorCommand::InsertChar(ch));
    }
    assert_eq!(ed.cursor_gcol, 1); // one grapheme on the first line

    // Backspace should delete the whole grapheme
    ed = ed.handle_command(EditorCommand::Backspace);
    assert_eq!(ed.cursor_gcol, 0);
    assert_eq!(ed.text.line(0).to_string(), "");
}

#[test]
fn backspace_clears_combining_grapheme_and_resets_col() {
    let mut ed = Editor::new();
    for ch in "e\u{0301}".chars() {
        // "é"
        ed = ed.handle_command(EditorCommand::InsertChar(ch));
    }
    // One grapheme on the line
    assert_eq!(ed.cursor_gcol, 1);

    // Backspace should delete the full grapheme and move to col 0
    ed = ed.handle_command(EditorCommand::Backspace);
    assert_eq!(ed.text.line(0).to_string(), "");
    assert_eq!(ed.cursor_row, 0);
    assert_eq!(ed.cursor_gcol, 0);
}

#[test]
fn newline_moves_caret_to_bol_and_next_char_is_col0() {
    // Start: ""
    let mut ed = Editor::new();

    // Type "hello", move left twice to end up after 'l'
    ed = type_str(ed, "hello");
    ed = ed.handle_command(EditorCommand::MoveLeft); // after 'l'
    ed = ed.handle_command(EditorCommand::MoveLeft); // after second 'l'

    // Press Enter: caret_abs must move to start of the next line (col 0)
    ed = ed.handle_command(EditorCommand::InsertChar('\n'));

    // Assert visual & anchor agree on BOL
    assert_eq!(ed.cursor_gcol, 0, "visual gcol should be 0 after newline");
    let caret_byte = ed.text.char_to_byte(ed.abs_char_at_cursor());
    let bol_byte = ed.text.line_to_byte(ed.cursor_row);
    assert_eq!(
        caret_byte, bol_byte,
        "caret_abs must be at BOL after newline"
    );

    // Now type 'X' — it MUST appear at column 0 on the new line
    ed = ed.handle_command(EditorCommand::InsertChar('X'));

    let line = ed.text.line(ed.cursor_row).to_string();
    assert!(
        line.starts_with('X'),
        "expected 'X' at col 0, got line {:?}",
        line
    );
    assert_eq!(
        ed.cursor_gcol, 1,
        "cursor should advance to col 1 after typing 'X'"
    );
}

#[test]
fn vertical_move_resyncs_caret_abs_then_inserts_there() {
    // Buffer: "aa\nbb\ncc"
    let mut ed = Editor::new();
    ed = type_str(ed, "aa\nbb\ncc");

    // Put caret at end of first line: row 0, gcol 2
    // (We are currently at end of buffer; move up twice, then right to clamp)
    ed = ed.handle_command(EditorCommand::MoveUp);
    ed = ed.handle_command(EditorCommand::MoveUp);

    // MoveDown once: should land at row 1, same gcol (min with line length)
    ed = ed.handle_command(EditorCommand::MoveDown);
    assert_eq!(ed.cursor_row, 1);

    // Type 'Z' — must go into line 1 at the current visual gcol
    let before = ed.text.line(ed.cursor_row).to_string();
    ed = ed.handle_command(EditorCommand::InsertChar('Z'));
    let after = ed.text.line(ed.cursor_row).to_string();
    assert_ne!(before, after, "line should change after insert");
    assert!(
        after.contains('Z'),
        "expected 'Z' inserted on the target line"
    );
}

#[test]
fn backspace_across_newline_moves_to_prev_line_end() {
    // Make two lines: "abc\n"
    let mut ed = Editor::new();
    ed = type_str(ed, "abc\n");

    // Now at start of second (empty) line; Backspace should delete the '\n'
    // and move caret to end of "abc"
    ed = ed.handle_command(EditorCommand::Backspace);

    assert_eq!(ed.text.to_string(), "abc");
    assert_eq!(ed.cursor_row, 0);
    assert_eq!(ed.cursor_gcol, 3);

    // Also check the anchor is at EOL in bytes
    let caret_byte = ed.text.char_to_byte(ed.abs_char_at_cursor());
    let eol_byte = ed.text.line_to_byte(0) + ed.text.line(0).len_bytes();
    assert_eq!(
        caret_byte, eol_byte,
        "caret_abs should end up at EOL of previous line"
    );
}

#[test]
fn emoji_is_single_grapheme_for_moves_and_backspace() {
    // "a👨‍👩‍👧‍👦b" — family emoji is one grapheme
    let mut ed = Editor::new();
    ed = type_str(ed, "a");
    for ch in "👨‍👩‍👧‍👦".chars() {
        ed = ed.handle_command(EditorCommand::InsertChar(ch));
    }
    ed = ed.handle_command(EditorCommand::InsertChar('b'));
    assert_eq!(ed.cursor_row, 0);

    // MoveLeft: b -> [emoji]
    ed = ed.handle_command(EditorCommand::MoveLeft);
    let (row, gcol) = (ed.cursor_row, ed.cursor_gcol);
    // MoveLeft again: [emoji] -> a (skip entire cluster)
    ed = ed.handle_command(EditorCommand::MoveLeft);
    assert_eq!(ed.cursor_row, row);
    assert_eq!(ed.cursor_gcol, gcol - 1, "emoji should count as one step");

    // MoveRight back onto emoji then Backspace once: removes the whole emoji
    ed = ed.handle_command(EditorCommand::MoveRight);
    let len_before = ed.text.len_chars();
    ed = ed.handle_command(EditorCommand::Backspace);
    let len_after = ed.text.len_chars();
    assert!(
        len_after < len_before,
        "one backspace should remove entire emoji cluster"
    );
}

#[test]
fn delete_over_newline_joins_lines_without_moving_caret_abs() {
    // Build: "foo\nbar"
    let mut ed = Editor::new();
    for ch in "foo\nbar".chars() {
        ed = ed.handle_command(EditorCommand::InsertChar(ch));
    }
    // Caret is at end (after 'r'). Move left 4 times:
    // r -> a -> b -> (start of line 1) -> just before '\n'
    ed = ed.handle_command(EditorCommand::MoveLeft); // after 'a'
    ed = ed.handle_command(EditorCommand::MoveLeft); // after 'b'
    ed = ed.handle_command(EditorCommand::MoveLeft); // after '\n' (row 1, col 0)
    ed = ed.handle_command(EditorCommand::MoveLeft); // before '\n' (row 0, col 3)

    // Sanity: we are at EOL of first line
    assert_eq!(ed.cursor_row, 0);
    assert_eq!(ed.cursor_gcol, 3);

    // Delete should remove the newline and join lines.
    ed = ed.handle_command(EditorCommand::Delete);

    assert_eq!(ed.text.to_string(), "foobar");
    // Caret stays at the same absolute char position (now before the old 'b')
    assert_eq!(ed.cursor_row, 0);
    assert_eq!(ed.cursor_gcol, 3);
}

#[test]
fn delete_at_eol_joins_unix() {
    let mut ed = Editor::new();
    for ch in "foo\nbar".chars() {
        ed = ed.handle_command(EditorCommand::InsertChar(ch));
    }
    // Move to just before '\n'
    ed = ed.handle_command(EditorCommand::MoveLeft); // 'a'
    ed = ed.handle_command(EditorCommand::MoveLeft); // 'b'
    ed = ed.handle_command(EditorCommand::MoveLeft); // at row1 col0 (after '\n')
    ed = ed.handle_command(EditorCommand::MoveLeft); // before '\n' (row0 col3)

    ed = ed.handle_command(EditorCommand::Delete);
    assert_eq!(ed.text.to_string(), "foobar");
    assert_eq!((ed.cursor_row, ed.cursor_gcol), (0, 3));
}

#[test]
fn delete_at_eol_joins_crlf() {
    let mut ed = Editor::new();
    // simulate CRLF explicitly
    for ch in "foo\r\nbar".chars() {
        ed = ed.handle_command(EditorCommand::InsertChar(ch));
    }
    // go to before '\r'
    ed = ed.handle_command(EditorCommand::MoveLeft);
    ed = ed.handle_command(EditorCommand::MoveLeft);
    ed = ed.handle_command(EditorCommand::MoveLeft);
    ed = ed.handle_command(EditorCommand::MoveLeft);

    ed = ed.handle_command(EditorCommand::Delete);
    assert_eq!(ed.text.to_string(), "foobar");
    assert_eq!((ed.cursor_row, ed.cursor_gcol), (0, 3));
}
