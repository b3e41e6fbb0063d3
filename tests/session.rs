use kk::{Direction, Editor, EditorAction, EditorEvent, EditorSession, EditorState};

fn session_with(lines: &[&str]) -> EditorSession {
    let mut e = Editor::new();
    e.lines = lines.iter().map(|l| l.to_string()).collect();
    EditorSession::new(e)
}

#[test]
fn quit_clean_buffer_closes() {
    let mut s = session_with(&["a"]);
    assert_eq!(s.handle(EditorEvent::Quit, 80, 24), EditorAction::Nothing);
    assert_eq!(s.state, EditorState::Closed);
}

#[test]
fn quit_dirty_then_no_closes_without_saving() {
    let mut s = session_with(&["a"]);
    assert_eq!(s.handle(EditorEvent::Char('b'), 80, 24), EditorAction::Nothing);
    assert!(s.editor.is_changed);
    assert_eq!(s.handle(EditorEvent::Quit, 80, 24), EditorAction::Nothing);
    assert_eq!(s.state, EditorState::ConfirmingSave);
    assert_eq!(s.handle(EditorEvent::Char('x'), 80, 24), EditorAction::Nothing);
    assert_eq!(s.state, EditorState::ConfirmingSave);
    assert_eq!(s.handle(EditorEvent::ConfirmNo, 80, 24), EditorAction::Nothing);
    assert_eq!(s.state, EditorState::Closed);
    assert_eq!(s.editor.lines, vec!["ba".to_string()]);
}

#[test]
fn quit_dirty_then_yes_saves_and_closes() {
    let mut s = session_with(&["a"]);
    s.handle(EditorEvent::Enter, 80, 24);
    s.handle(EditorEvent::Quit, 80, 24);
    assert_eq!(s.handle(EditorEvent::ConfirmYes, 80, 24), EditorAction::Persist);
    assert_eq!(s.state, EditorState::Closed);
}

#[test]
fn save_keeps_editing() {
    let mut s = session_with(&["a"]);
    assert_eq!(s.handle(EditorEvent::Save, 80, 24), EditorAction::Persist);
    assert_eq!(s.state, EditorState::Editing);
}

#[test]
fn save_and_quit_closes_even_when_clean() {
    let mut s = session_with(&["a"]);
    assert_eq!(s.handle(EditorEvent::SaveAndQuit, 80, 24), EditorAction::Persist);
    assert_eq!(s.state, EditorState::Closed);
}

#[test]
fn editing_events_route_to_buffer_and_scroll() {
    let mut s = session_with(&["abc"]);
    s.handle(EditorEvent::Arrow(Direction::Right), 2, 2);
    s.handle(EditorEvent::Arrow(Direction::Right), 2, 2);
    assert_eq!(s.editor.col_offset, 1);
    s.handle(EditorEvent::Enter, 2, 2);
    s.handle(EditorEvent::Enter, 2, 2);
    assert_eq!(s.editor.lines, vec!["ab".to_string(), String::new(), "c".to_string()]);
    assert_eq!(s.editor.row_offset, 1);
    assert_eq!(s.editor.col_offset, 0);
    s.handle(EditorEvent::Backspace, 2, 2);
    assert_eq!(s.editor.lines, vec!["ab".to_string(), "c".to_string()]);
    assert_eq!((s.editor.cursor_y, s.editor.cursor_x), (1, 0));
}

#[test]
fn closed_session_ignores_events() {
    let mut s = session_with(&["a"]);
    s.handle(EditorEvent::Quit, 80, 24);
    assert_eq!(s.handle(EditorEvent::Char('z'), 80, 24), EditorAction::Nothing);
    assert_eq!(s.handle(EditorEvent::Save, 80, 24), EditorAction::Nothing);
    assert_eq!(s.editor.lines, vec!["a".to_string()]);
}
