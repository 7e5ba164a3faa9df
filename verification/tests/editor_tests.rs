use hecto::{Editor, Frame, Key, Position};

#[test]
fn default_editor_starts_at_origin() {
    let editor = Editor::default();
    assert!(!editor.should_quit);
    assert_eq!(editor.cursor_position, Position { x: 0, y: 0 });
    assert_eq!(editor.version, "0.1.0");
}

#[test]
fn page_down_end_home_scenario() {
    // Viewport 80 x 24, cursor starts at (0, 0).
    let mut editor = Editor::default();
    editor.process_keypress(Key::PageDown, 80, 24);
    assert_eq!(editor.cursor_position, Position { x: 0, y: 23 });
    editor.process_keypress(Key::End, 80, 24);
    assert_eq!(editor.cursor_position, Position { x: 79, y: 23 });
    editor.process_keypress(Key::Home, 80, 24);
    assert_eq!(editor.cursor_position, Position { x: 0, y: 23 });
}

#[test]
fn moves_clamp_at_the_edges() {
    let mut editor = Editor::default();
    for _ in 0..5 {
        editor.move_cursor(Key::Char('k'), 10, 5);
        assert_eq!(editor.cursor_position.y, 0);
        editor.move_cursor(Key::Char('h'), 10, 5);
        assert_eq!(editor.cursor_position.x, 0);
    }
    for _ in 0..20 {
        editor.move_cursor(Key::Char('j'), 10, 5);
        editor.move_cursor(Key::Char('l'), 10, 5);
    }
    assert_eq!(editor.cursor_position, Position { x: 9, y: 4 });
    editor.move_cursor(Key::Char('j'), 10, 5);
    editor.move_cursor(Key::Char('l'), 10, 5);
    assert_eq!(editor.cursor_position, Position { x: 9, y: 4 });
}

#[test]
fn single_moves_step_by_one() {
    let mut editor = Editor::default();
    editor.move_cursor(Key::Char('j'), 80, 24);
    editor.move_cursor(Key::Char('j'), 80, 24);
    editor.move_cursor(Key::Char('l'), 80, 24);
    assert_eq!(editor.cursor_position, Position { x: 1, y: 2 });
    editor.move_cursor(Key::Char('k'), 80, 24);
    editor.move_cursor(Key::Char('h'), 80, 24);
    assert_eq!(editor.cursor_position, Position { x: 0, y: 1 });
}

#[test]
fn unrecognized_keys_change_nothing() {
    let mut editor = Editor::default();
    editor.process_keypress(Key::PageDown, 80, 24);
    let handled = editor.process_keypress(Key::Char('x'), 80, 24);
    assert!(!handled);
    let handled = editor.process_keypress(Key::Ctrl('a'), 80, 24);
    assert!(!handled);
    let handled = editor.process_keypress(Key::Other, 80, 24);
    assert!(!handled);
    assert!(!editor.should_quit);
    assert_eq!(editor.cursor_position, Position { x: 0, y: 23 });
}

#[test]
fn ctrl_q_quits_and_next_refresh_says_goodbye() {
    let mut editor = Editor::default();
    let handled = editor.process_keypress(Key::Ctrl('q'), 80, 24);
    assert!(handled);
    assert!(editor.should_quit);
    match editor.refresh_screen(80, 24) {
        Frame::Farewell { text } => assert_eq!(text, "Goodbye.\r"),
        Frame::Screen { .. } => panic!("expected the farewell frame"),
    }
}

#[test]
fn no_key_leaves_the_quitting_state() {
    let mut editor = Editor::default();
    editor.process_keypress(Key::Ctrl('q'), 80, 24);
    assert!(editor.should_quit);
    for key in [Key::Char('j'), Key::Ctrl('q'), Key::PageUp, Key::Other] {
        editor.process_keypress(key, 80, 24);
        assert!(editor.should_quit);
    }
}

#[test]
fn running_refresh_draws_rows_and_cursor() {
    let mut editor = Editor::default();
    editor.process_keypress(Key::Char('j'), 80, 24);
    match editor.refresh_screen(80, 24) {
        Frame::Farewell { .. } => panic!("expected a screen frame"),
        Frame::Screen { lines, cursor } => {
            assert_eq!(cursor, Position { x: 0, y: 1 });
            assert_eq!(lines.len(), 23);
            for (r, line) in lines.iter().enumerate() {
                if r == 24 / 3 {
                    assert!(line.starts_with('~'));
                    assert!(line.contains("Hecto editor -- version 0.1.0"));
                    assert!(line.ends_with('\r'));
                } else {
                    assert_eq!(line, "~\r");
                }
            }
        }
    }
}

#[test]
fn welcome_message_is_centered_on_wide_viewports() {
    let editor = Editor::default();
    let line = editor.draw_welcome_message(80);
    // The banner is 30 characters, so the padding is 25: a tilde and 24
    // spaces precede it.
    let mut expected = String::from("~");
    expected.push_str(&" ".repeat(24));
    expected.push_str("Hecto editor -- version 0.1.0\r");
    assert_eq!(line, expected);
    assert!(line.chars().count() <= 80);
}

#[test]
fn narrow_viewport_truncates_welcome_message() {
    // Viewport 10 x 5: the 30-character banner does not fit, the padding
    // computes to 0, and the line is cut to exactly 10 characters.
    let editor = Editor::default();
    let line = editor.draw_welcome_message(10);
    assert_eq!(line.chars().count(), 10);
    assert!(line.starts_with('~'));
    assert_eq!(line, "~Hecto edi");
}

#[test]
fn narrow_viewport_rows() {
    let editor = Editor::default();
    let lines = editor.draw_rows(10, 5);
    assert_eq!(lines.len(), 4);
    assert_eq!(lines[0], "~\r");
    assert_eq!(lines[1], "~Hecto edi\r");
    assert_eq!(lines[2], "~\r");
    assert_eq!(lines[3], "~\r");
}

#[test]
fn one_row_viewport_draws_nothing() {
    let editor = Editor::default();
    let lines = editor.draw_rows(7, 1);
    assert!(lines.is_empty());
}
