use stock_tui::editor::InputEditorWidget;
use stock_tui::keys::{Key, TermMode};
use stock_tui::layout::{split_layout, Rect};
use stock_tui::render::{char_cells, cursor_col, HelpMessage, TitleWidget};

fn chars_of(s: &str) -> Vec<char> {
    s.chars().collect()
}

#[test]
fn layout_splits_into_three_stacked_regions() {
    let (r0, r1, r2) = split_layout(Rect { x: 0, y: 0, width: 80, height: 24 });
    assert_eq!(r0, Rect { x: 2, y: 2, width: 76, height: 1 });
    assert_eq!(r1, Rect { x: 2, y: 3, width: 76, height: 3 });
    assert_eq!(r2, Rect { x: 2, y: 6, width: 76, height: 16 });
}

#[test]
fn layout_cuts_regions_short_on_a_tiny_area() {
    let (r0, r1, r2) = split_layout(Rect { x: 0, y: 0, width: 10, height: 6 });
    assert_eq!(r0, Rect { x: 2, y: 2, width: 6, height: 1 });
    assert_eq!(r1, Rect { x: 2, y: 3, width: 6, height: 1 });
    assert_eq!(r2, Rect { x: 2, y: 4, width: 6, height: 0 });
    let (z0, z1, z2) = split_layout(Rect { x: 3, y: 4, width: 2, height: 2 });
    assert_eq!(z0.height, 0);
    assert_eq!(z1.height, 0);
    assert_eq!(z2.height, 0);
    assert_eq!(z0.x, 3);
    assert_eq!(z1.width, 0);
    assert_eq!(z2.y, 4);
}

#[test]
fn title_widget_draws_its_fixed_paragraph() {
    let t = TitleWidget::new("Stocks".to_string());
    assert_eq!(t.title, "Stocks");
    let p = t.draw();
    assert_eq!(p.content, "test");
    assert!(p.centered);
    assert!(p.bordered);
    assert!(p.white_fg);
}

#[test]
fn help_line_in_normal_mode_blinks_and_names_q_and_i() {
    let h = HelpMessage::new();
    assert_eq!(h.mode, TermMode::Normal);
    let line = h.draw();
    assert!(line.rapid_blink);
    let texts: Vec<&str> = line.spans.iter().map(|s| s.content.as_str()).collect();
    assert_eq!(texts, vec!["Press ", "q", " to exit, ", "i", " to start editing."]);
    let bolds: Vec<bool> = line.spans.iter().map(|s| s.bold).collect();
    assert_eq!(bolds, vec![false, true, false, true, false]);
}

#[test]
fn help_line_in_editing_mode_is_calm_and_names_esc_and_enter() {
    let h = HelpMessage { mode: TermMode::Editing };
    let line = h.draw();
    assert!(!line.rapid_blink);
    let texts: Vec<&str> = line.spans.iter().map(|s| s.content.as_str()).collect();
    assert_eq!(texts, vec!["Press ", "Esc", " to stop editing, ", "Enter", " to record the message"]);
    let bolds: Vec<bool> = line.spans.iter().map(|s| s.bold).collect();
    assert_eq!(bolds, vec![false, true, false, true, false]);
}

#[test]
fn wide_characters_occupy_two_cells() {
    assert_eq!(char_cells('a'), 1);
    assert_eq!(char_cells('é'), 1);
    assert_eq!(char_cells('世'), 2);
    assert_eq!(char_cells('ハ'), 2);
}

#[test]
fn cursor_column_counts_display_cells_not_bytes() {
    let r1 = Rect { x: 2, y: 3, width: 76, height: 3 };
    let text = chars_of("a世é");
    // Left edge + border cell, then 1 + 2 + 1 cells.
    assert_eq!(cursor_col(r1, &text, 0), 3);
    assert_eq!(cursor_col(r1, &text, 1), 4);
    assert_eq!(cursor_col(r1, &text, 2), 6);
    assert_eq!(cursor_col(r1, &text, 3), 7);
}

#[test]
fn frame_shows_buffer_cursor_and_indexed_messages() {
    let mut ed = InputEditorWidget::new(Rect { x: 0, y: 0, width: 80, height: 24 });
    ed.handle_key(Key::Enter);
    ed.handle_key(Key::Char('o'));
    ed.handle_key(Key::Char('k'));
    ed.handle_key(Key::Enter);
    ed.handle_key(Key::Char('世'));
    let frame = ed.draw();
    assert_eq!(frame.input_area, Rect { x: 2, y: 3, width: 76, height: 3 });
    assert_eq!(frame.messages_area, Rect { x: 2, y: 6, width: 76, height: 16 });
    assert_eq!(frame.input_title, "Input");
    assert_eq!(frame.messages_title, "Messages");
    assert_eq!(frame.input_text, chars_of("世"));
    assert!(frame.input_yellow);
    let cur = frame.screen_cursor.expect("editing mode shows the cursor");
    assert_eq!(cur.col, 2 + 2 + 1);
    assert_eq!(cur.row, 3 + 1);
    assert_eq!(frame.entries.len(), 1);
    assert_eq!(frame.entries[0].index, 0);
    assert_eq!(frame.entries[0].content, chars_of("ok"));
}

#[test]
fn frame_in_normal_mode_hides_the_cursor() {
    let ed = InputEditorWidget::new(Rect { x: 0, y: 0, width: 80, height: 24 });
    let frame = ed.draw();
    assert!(!frame.input_yellow);
    assert!(frame.screen_cursor.is_none());
    assert!(frame.entries.is_empty());
}
