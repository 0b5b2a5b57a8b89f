use editor_core::editor::{EditorMode, Pending};
use editor_core::input::{map_key, EditorCommand, Key, KeyMappingResult};

fn fresh_pending() -> Pending {
    Pending { count: None, register: None, prefix: Vec::new() }
}

#[test]
fn test_quit_key() {
    let mut pending = fresh_pending();
    let out = map_key(Key::Esc, EditorMode::Insert, &mut pending);
    assert_eq!(out, KeyMappingResult::Command(EditorCommand::Quit));
}

#[test]
fn input_test_insert_char() {
    let mut pending = fresh_pending();
    let out = map_key(Key::Char('a'), EditorMode::Insert, &mut pending);
    assert_eq!(out, KeyMappingResult::Command(EditorCommand::InsertChar('a')));
}

#[test]
fn count_accumulates_into_word_motion() {
    let mut pending = fresh_pending();
    assert_eq!(
        map_key(Key::Char('1'), EditorMode::Normal, &mut pending),
        KeyMappingResult::UpdatePending
    );
    assert_eq!(
        map_key(Key::Char('2'), EditorMode::Normal, &mut pending),
        KeyMappingResult::UpdatePending
    );
    assert_eq!(pending.count, Some(12));
    let out = map_key(Key::Char('w'), EditorMode::Normal, &mut pending);
    assert_eq!(out, KeyMappingResult::Command(EditorCommand::WordForward { count: 12 }));
    assert_eq!(pending.count, None);
}

#[test]
fn double_d_deletes_lines_with_count() {
    let mut pending = fresh_pending();
    map_key(Key::Char('3'), EditorMode::Normal, &mut pending);
    assert_eq!(
        map_key(Key::Char('d'), EditorMode::Normal, &mut pending),
        KeyMappingResult::UpdatePending
    );
    let out = map_key(Key::Char('d'), EditorMode::Normal, &mut pending);
    assert_eq!(out, KeyMappingResult::Command(EditorCommand::DeleteLine { count: 3 }));
    assert_eq!(pending.count, None);
    assert!(pending.prefix.is_empty());
}

#[test]
fn double_g_moves_to_start_of_file() {
    let mut pending = fresh_pending();
    map_key(Key::Char('g'), EditorMode::Normal, &mut pending);
    let out = map_key(Key::Char('g'), EditorMode::Normal, &mut pending);
    assert_eq!(out, KeyMappingResult::Command(EditorCommand::MoveToStartOfFile));
}

#[test]
fn broken_prefix_is_dropped_and_key_read_fresh() {
    let mut pending = fresh_pending();
    map_key(Key::Char('d'), EditorMode::Normal, &mut pending);
    let out = map_key(Key::Left, EditorMode::Normal, &mut pending);
    assert_eq!(out, KeyMappingResult::Command(EditorCommand::MoveLeft));
    assert!(pending.prefix.is_empty());
}

#[test]
fn insert_mode_maps_motion_and_editing_keys() {
    let mut pending = fresh_pending();
    assert_eq!(
        map_key(Key::Enter, EditorMode::Insert, &mut pending),
        KeyMappingResult::Command(EditorCommand::InsertNewline)
    );
    assert_eq!(
        map_key(Key::Backspace, EditorMode::Insert, &mut pending),
        KeyMappingResult::Command(EditorCommand::Backspace)
    );
    assert_eq!(
        map_key(Key::Up, EditorMode::Insert, &mut pending),
        KeyMappingResult::Command(EditorCommand::MoveUp)
    );
    assert_eq!(
        map_key(Key::Other, EditorMode::Insert, &mut pending),
        KeyMappingResult::Noop
    );
}

#[test]
fn normal_mode_i_enters_insert_mode() {
    let mut pending = fresh_pending();
    let out = map_key(Key::Char('i'), EditorMode::Normal, &mut pending);
    assert_eq!(out, KeyMappingResult::Command(EditorCommand::EnterInsertMode));
}
