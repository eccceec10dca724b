use stock_tui::editor::InputEditorWidget;
use stock_tui::keys::{EditorSignal, Key, TermMode};
use stock_tui::layout::Rect;

fn chars_of(s: &str) -> Vec<char> {
    s.chars().collect()
}

fn screen() -> Rect {
    Rect { x: 0, y: 0, width: 80, height: 24 }
}

#[test]
fn fresh_editor_is_empty_normal() {
    let ed = InputEditorWidget::new(screen());
    assert_eq!(ed.input, chars_of(""));
    assert_eq!(ed.character_index, 0);
    assert_eq!(ed.mode, TermMode::Normal);
    assert!(ed.messages.is_empty());
    assert_eq!(ed.chunks.len(), 3);
}

#[test]
fn empty_commit_appends_empty_entry() {
    // Normal -> Enter (-> Editing) -> Enter (commit empty).
    let mut ed = InputEditorWidget::new(screen());
    assert_eq!(ed.handle_key(Key::Enter), EditorSignal::Continue);
    assert_eq!(ed.mode, TermMode::Editing);
    assert_eq!(ed.handle_key(Key::Enter), EditorSignal::Continue);
    assert_eq!(ed.messages, vec![chars_of("")]);
    assert_eq!(ed.input, chars_of(""));
    assert_eq!(ed.mode, TermMode::Editing);
}

#[test]
fn ascii_line_is_committed() {
    // Normal -> Enter -> 'h' 'i' -> Enter.
    let mut ed = InputEditorWidget::new(screen());
    ed.handle_key(Key::Enter);
    ed.handle_key(Key::Char('h'));
    ed.handle_key(Key::Char('i'));
    ed.handle_key(Key::Enter);
    assert_eq!(ed.messages, vec![chars_of("hi")]);
    assert_eq!(ed.input, chars_of(""));
    assert_eq!(ed.character_index, 0);
}

#[test]
fn backspace_at_start_is_a_no_op() {
    let mut ed = InputEditorWidget::new(screen());
    ed.handle_key(Key::Enter);
    ed.handle_key(Key::Backspace);
    assert_eq!(ed.input, chars_of(""));
    assert_eq!(ed.character_index, 0);
    assert_eq!(ed.mode, TermMode::Editing);
    assert!(ed.messages.is_empty());
}

#[test]
fn cursor_saturates_at_both_ends() {
    // Editing, type 'a', then Right five times, then Left ten times.
    let mut ed = InputEditorWidget::new(screen());
    ed.handle_key(Key::Enter);
    ed.handle_key(Key::Char('a'));
    for _ in 0..5 {
        ed.handle_key(Key::Right);
    }
    assert_eq!(ed.character_index, 1);
    for _ in 0..10 {
        ed.handle_key(Key::Left);
    }
    assert_eq!(ed.character_index, 0);
    assert_eq!(ed.input, chars_of("a"));
}

#[test]
fn backspace_removes_one_multibyte_character() {
    let mut ed = InputEditorWidget::new(screen());
    ed.handle_key(Key::Enter);
    ed.handle_key(Key::Char('é'));
    assert_eq!(ed.input, chars_of("é"));
    assert_eq!(ed.character_index, 1);
    ed.handle_key(Key::Backspace);
    assert_eq!(ed.input, chars_of(""));
    assert_eq!(ed.character_index, 0);
}

#[test]
fn mode_toggle_back_to_normal_ignores_printables() {
    // Normal -> Enter -> Esc -> a printable key.
    let mut ed = InputEditorWidget::new(screen());
    ed.handle_key(Key::Enter);
    assert_eq!(ed.mode, TermMode::Editing);
    ed.handle_key(Key::Esc);
    assert_eq!(ed.mode, TermMode::Normal);
    ed.handle_key(Key::Char('x'));
    assert_eq!(ed.input, chars_of(""));
    assert_eq!(ed.mode, TermMode::Normal);
    assert!(ed.messages.is_empty());
}

#[test]
fn esc_in_normal_mode_signals_exit() {
    let mut ed = InputEditorWidget::new(screen());
    assert_eq!(ed.handle_key(Key::Esc), EditorSignal::Exit);
    assert_eq!(ed.mode, TermMode::Normal);
}

#[test]
fn other_keys_are_ignored_in_both_modes() {
    let mut ed = InputEditorWidget::new(screen());
    ed.handle_key(Key::Other);
    assert_eq!(ed.mode, TermMode::Normal);
    ed.handle_key(Key::Enter);
    ed.handle_key(Key::Char('a'));
    ed.handle_key(Key::Other);
    assert_eq!(ed.input, chars_of("a"));
    assert_eq!(ed.character_index, 1);
}

#[test]
fn normal_mode_ignores_every_passive_key() {
    let mut ed = InputEditorWidget::new(screen());
    for key in [Key::Char('x'), Key::Left, Key::Right, Key::Backspace, Key::Other] {
        assert_eq!(ed.handle_key(key), EditorSignal::Continue);
    }
    assert_eq!(ed.mode, TermMode::Normal);
    assert_eq!(ed.input, chars_of(""));
    assert_eq!(ed.character_index, 0);
    assert!(ed.messages.is_empty());
}

#[test]
fn cursor_stays_inside_the_buffer() {
    let mut ed = InputEditorWidget::new(screen());
    let keys = [
        Key::Enter,
        Key::Char('a'),
        Key::Right,
        Key::Char('b'),
        Key::Left,
        Key::Left,
        Key::Left,
        Key::Backspace,
        Key::Char('c'),
        Key::Enter,
        Key::Char('d'),
    ];
    for key in keys {
        ed.handle_key(key);
        assert!(ed.character_index <= ed.input.len());
    }
}

#[test]
fn insert_in_the_middle_goes_before_the_cursor() {
    let mut ed = InputEditorWidget::new(screen());
    ed.handle_key(Key::Enter);
    ed.handle_key(Key::Char('a'));
    ed.handle_key(Key::Char('c'));
    ed.handle_key(Key::Left);
    ed.handle_key(Key::Char('b'));
    assert_eq!(ed.input, chars_of("abc"));
    assert_eq!(ed.character_index, 2);
}

#[test]
fn insert_then_backspace_restores_the_text() {
    let mut ed = InputEditorWidget::new(screen());
    ed.handle_key(Key::Enter);
    ed.handle_key(Key::Char('a'));
    ed.handle_key(Key::Char('b'));
    ed.handle_key(Key::Left);
    let before = ed.input.clone();
    let cursor_before = ed.character_index;
    ed.handle_key(Key::Char('z'));
    ed.handle_key(Key::Backspace);
    assert_eq!(ed.input, before);
    assert_eq!(ed.character_index, cursor_before);
}

#[test]
fn move_left_after_insert_restores_the_cursor() {
    let mut ed = InputEditorWidget::new(screen());
    ed.handle_key(Key::Enter);
    ed.handle_key(Key::Char('a'));
    let cursor_before = ed.character_index;
    ed.handle_key(Key::Char('b'));
    ed.handle_key(Key::Left);
    assert_eq!(ed.character_index, cursor_before);
}

#[test]
fn two_commits_append_in_order() {
    let mut ed = InputEditorWidget::new(screen());
    ed.handle_key(Key::Enter);
    ed.handle_key(Key::Char('a'));
    ed.handle_key(Key::Enter);
    ed.handle_key(Key::Char('b'));
    ed.handle_key(Key::Enter);
    assert_eq!(ed.messages, vec![chars_of("a"), chars_of("b")]);
}

#[test]
fn byte_index_counts_utf8_bytes_before_the_cursor() {
    let mut ed = InputEditorWidget::new(screen());
    ed.handle_key(Key::Enter);
    ed.handle_key(Key::Char('a'));
    ed.handle_key(Key::Char('é'));
    ed.handle_key(Key::Char('世'));
    // Cursor is after all three characters: 1 + 2 + 3 bytes.
    assert_eq!(ed.byte_index(), 6);
    ed.handle_key(Key::Left);
    assert_eq!(ed.byte_index(), 3);
    ed.handle_key(Key::Left);
    assert_eq!(ed.byte_index(), 1);
    ed.handle_key(Key::Left);
    assert_eq!(ed.byte_index(), 0);
}

#[test]
fn direct_buffer_operations_match_their_contracts() {
    let mut ed = InputEditorWidget::new(screen());
    ed.mode = TermMode::Editing;
    ed.enter_char('x');
    ed.enter_char('y');
    assert_eq!(ed.input, chars_of("xy"));
    assert_eq!(ed.character_index, 2);
    ed.move_cursor_left();
    assert_eq!(ed.character_index, 1);
    ed.delete_char();
    assert_eq!(ed.input, chars_of("y"));
    assert_eq!(ed.character_index, 0);
    ed.move_cursor_right();
    assert_eq!(ed.character_index, 1);
    assert_eq!(ed.clamp_cursor(7), 1);
    ed.submit_message();
    assert_eq!(ed.messages, vec![chars_of("y")]);
    assert_eq!(ed.input, chars_of(""));
    assert_eq!(ed.character_index, 0);
    ed.reset_cursor();
    assert_eq!(ed.character_index, 0);
}
