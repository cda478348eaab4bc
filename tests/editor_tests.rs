use vix::buffer::{Buffer, BufferError};
use vix::editor::{
    handle_insert_event, handle_normal_event, is_quit, Actions, Editor, KeyCode, KeyPress, Modifiers, Mode,
};
use vix::render::{percent, status_bar};

fn editor_of(lines: &[&str], cy: usize, cx: usize) -> Editor {
    let buffer = Buffer {
        file: None,
        lines: lines.iter().map(|s| s.to_string()).collect(),
        modified: false,
    };
    let mut e = Editor::with_buffer(buffer);
    e.cy = cy;
    e.cx = cx;
    e
}

fn lines(e: &Editor) -> Vec<String> {
    e.buffer.lines.clone()
}

fn key(code: KeyCode, modifiers: Modifiers) -> KeyPress {
    KeyPress { code, modifiers }
}

#[test]
fn newline_at_end_of_line() {
    let mut e = editor_of(&["abc", "de"], 0, 3);
    assert!(e.apply_action(Actions::NewLine).is_none());
    assert_eq!(lines(&e), vec!["abc", "", "de"]);
    assert_eq!((e.cy, e.cx), (1, 0));
}

#[test]
fn newline_mid_line() {
    let mut e = editor_of(&["abc"], 0, 1);
    e.apply_action(Actions::NewLine);
    assert_eq!(lines(&e), vec!["a", "bc"]);
    assert_eq!((e.cy, e.cx), (1, 0));
}

#[test]
fn backspace_joins_lines() {
    let mut e = editor_of(&["ab", "c"], 1, 0);
    e.apply_action(Actions::Backspace);
    assert_eq!(lines(&e), vec!["abc"]);
    assert_eq!((e.cy, e.cx), (0, 2));
}

#[test]
fn backspace_removes_previous_char() {
    let mut e = editor_of(&["abc"], 0, 2);
    e.apply_action(Actions::Backspace);
    assert_eq!(lines(&e), vec!["ac"]);
    assert_eq!(e.cx, 1);
}

#[test]
fn backspace_at_origin_does_nothing() {
    let mut e = editor_of(&["abc"], 0, 0);
    e.apply_action(Actions::Backspace);
    assert_eq!(lines(&e), vec!["abc"]);
    assert_eq!((e.cy, e.cx), (0, 0));
    assert!(!e.buffer.modified);
}

#[test]
fn delete_line_on_single_empty_buffer() {
    let mut e = Editor::new();
    e.apply_action(Actions::DeleteLine);
    assert_eq!(lines(&e), vec![""]);
    assert_eq!(e.status_message.as_deref(), Some("Line deleted"));
}

#[test]
fn delete_last_line_moves_cursor_up() {
    let mut e = editor_of(&["abc", "defgh"], 1, 4);
    e.apply_action(Actions::DeleteLine);
    assert_eq!(lines(&e), vec!["abc"]);
    assert_eq!((e.cy, e.cx), (0, 3));
}

#[test]
fn print_char_advances_cursor() {
    let mut e = editor_of(&["ac"], 0, 1);
    e.apply_action(Actions::PrintChar('b'));
    assert_eq!(lines(&e), vec!["abc"]);
    assert_eq!(e.cx, 2);
    assert!(e.buffer.modified);
}

#[test]
fn horizontal_moves_are_clamped() {
    let mut e = editor_of(&["ab"], 0, 0);
    e.apply_action(Actions::MoveLeft);
    assert_eq!(e.cx, 0);
    e.apply_action(Actions::MoveRight);
    e.apply_action(Actions::MoveRight);
    e.apply_action(Actions::MoveRight);
    assert_eq!(e.cx, 2);
}

#[test]
fn vertical_moves_clamp_column() {
    let mut e = editor_of(&["abcdef", "ab", "abcdef"], 0, 5);
    e.apply_action(Actions::MoveDown);
    assert_eq!((e.cy, e.cx), (1, 2));
    e.apply_action(Actions::MoveDown);
    assert_eq!((e.cy, e.cx), (2, 2));
    e.apply_action(Actions::MoveDown);
    assert_eq!((e.cy, e.cx), (2, 2));
    e.apply_action(Actions::MoveUp);
    e.apply_action(Actions::MoveUp);
    e.apply_action(Actions::MoveUp);
    assert_eq!((e.cy, e.cx), (0, 2));
}

#[test]
fn enter_mode_switches() {
    let mut e = Editor::new();
    assert_eq!(e.mode, Mode::Normal);
    e.apply_action(Actions::EnterMode(Mode::Insert));
    assert_eq!(e.mode, Mode::Insert);
}

#[test]
fn save_without_path_reports_error() {
    let mut e = Editor::new();
    assert!(e.apply_action(Actions::Save).is_none());
    assert_eq!(e.status_message.as_deref(), Some("Error saving file: No file name set"));
}

#[test]
fn save_requests_and_outcomes() {
    let mut e = editor_of(&["a", "b"], 0, 0);
    e.buffer.file = Some("f.txt".to_string());
    e.apply_action(Actions::PrintChar('x'));
    let req = e.apply_action(Actions::Save).unwrap();
    assert_eq!(req.path, "f.txt");
    assert_eq!(req.content, "xa\nb");
    assert!(!req.as_new);
    e.finish_save(req, Ok(()));
    assert!(!e.buffer.modified);
    assert_eq!(e.status_message.as_deref(), Some("Saved."));

    let req = e.apply_action(Actions::SaveAs("g.txt".to_string())).unwrap();
    assert!(req.as_new);
    e.finish_save(req, Err(BufferError::IoError("disk full".to_string())));
    assert_eq!(e.buffer.file.as_deref(), Some("f.txt"));
    assert_eq!(e.status_message.as_deref(), Some("Error saving file: IO error: disk full"));

    let req = e.apply_action(Actions::SaveAs("g.txt".to_string())).unwrap();
    e.finish_save(req, Ok(()));
    assert_eq!(e.buffer.file.as_deref(), Some("g.txt"));
    assert_eq!(e.status_message.as_deref(), Some("Saved (as)."));
}

#[test]
fn normal_mode_keys() {
    let plain = |c| key(KeyCode::Char(c), Modifiers::Plain);
    let ctrl = |c| key(KeyCode::Char(c), Modifiers::Control);
    assert_eq!(handle_normal_event(plain('h')), Some(Actions::MoveLeft));
    assert_eq!(handle_normal_event(plain('j')), Some(Actions::MoveDown));
    assert_eq!(handle_normal_event(plain('k')), Some(Actions::MoveUp));
    assert_eq!(handle_normal_event(plain('l')), Some(Actions::MoveRight));
    assert_eq!(handle_normal_event(plain('i')), Some(Actions::EnterMode(Mode::Insert)));
    assert_eq!(handle_normal_event(ctrl('s')), Some(Actions::Save));
    assert_eq!(
        handle_normal_event(ctrl('S')),
        Some(Actions::SaveAs("new_file.txt".to_string()))
    );
    assert_eq!(handle_normal_event(ctrl('d')), Some(Actions::DeleteLine));
    assert_eq!(handle_normal_event(ctrl('h')), None);
    assert_eq!(handle_normal_event(plain('x')), None);
    assert_eq!(handle_normal_event(key(KeyCode::Enter, Modifiers::Plain)), None);
}

#[test]
fn insert_mode_keys() {
    assert_eq!(
        handle_insert_event(key(KeyCode::Esc, Modifiers::Plain)),
        Some(Actions::EnterMode(Mode::Normal))
    );
    assert_eq!(
        handle_insert_event(key(KeyCode::Char('Q'), Modifiers::Other)),
        Some(Actions::PrintChar('Q'))
    );
    assert_eq!(handle_insert_event(key(KeyCode::Backspace, Modifiers::Plain)), Some(Actions::Backspace));
    assert_eq!(handle_insert_event(key(KeyCode::Enter, Modifiers::Plain)), Some(Actions::NewLine));
    assert_eq!(handle_insert_event(key(KeyCode::Other, Modifiers::Plain)), None);
    let mut e = Editor::new();
    e.mode = Mode::Insert;
    assert_eq!(e.handle_event(key(KeyCode::Char('h'), Modifiers::Plain)), Some(Actions::PrintChar('h')));
}

#[test]
fn viewport_scrolls_to_cursor() {
    let rows: Vec<String> = (0..20).map(|i| format!("line {}", i)).collect();
    let refs: Vec<&str> = rows.iter().map(|s| s.as_str()).collect();
    let mut e = editor_of(&refs, 0, 0);
    for _ in 0..19 {
        e.apply_action(Actions::MoveDown);
    }
    assert_eq!(e.cy, 19);
    let frame = e.layout(80, 11);
    assert_eq!(e.row_offset, 10);
    assert_eq!(frame.top, 10);
    assert_eq!(frame.visible, 10);
    assert_eq!(frame.cursor_row, 9);
    assert_eq!(frame.status_row, 10);
    for _ in 0..19 {
        e.apply_action(Actions::MoveUp);
    }
    let frame = e.layout(80, 11);
    assert_eq!(frame.top, 0);
    assert_eq!(frame.cursor_row, 0);
}

#[test]
fn status_bar_padding_and_truncation() {
    assert_eq!(status_bar("ab", "cd", 8), "ab    cd");
    assert_eq!(status_bar("abc", "defgh", 7), "abcdefg");
    assert_eq!(status_bar("ab", "cd", 4), "abcd");
    assert_eq!(status_bar("abcdef", "xyz", 4), "abcdef");
}

#[test]
fn status_text_of_editor() {
    let mut e = editor_of(&["a", "b", "c"], 1, 0);
    e.buffer.file = Some("f.txt".to_string());
    e.buffer.modified = true;
    assert_eq!(e.status_left(), "NORMAL > f.txt* >");
    assert_eq!(e.status_right(), "Ln 2 Col 1 50%");
    let frame = e.layout(40, 5);
    assert_eq!(frame.status, "NORMAL > f.txt* >         Ln 2 Col 1 50%");
    assert_eq!(frame.status.len(), 40);
    e.status_message = Some("Saved.".to_string());
    assert_eq!(e.status_right(), "Saved.");
}

#[test]
fn percent_rounds_to_nearest() {
    assert_eq!(percent(0, 1), 100);
    assert_eq!(percent(0, 2), 0);
    assert_eq!(percent(1, 2), 100);
    assert_eq!(percent(1, 9), 13);
    assert_eq!(percent(1, 3), 50);
    assert_eq!(percent(1, 4), 33);
    assert_eq!(percent(2, 4), 67);
}

#[test]
fn cursor_clamped_on_tiny_terminal() {
    let mut e = editor_of(&["abcdefgh"], 0, 6);
    let frame = e.layout(3, 1);
    assert_eq!(frame.cursor_col, 2);
    assert_eq!(frame.cursor_row, 0);
    assert_eq!(frame.visible, 0);
}

#[test]
fn quit_only_in_normal_mode() {
    let q = key(KeyCode::Char('q'), Modifiers::Plain);
    assert!(is_quit(Mode::Normal, q));
    assert!(is_quit(Mode::Normal, key(KeyCode::Char('q'), Modifiers::Control)));
    assert!(!is_quit(Mode::Insert, q));
    assert!(!is_quit(Mode::Normal, key(KeyCode::Char('Q'), Modifiers::Plain)));
}
