use kk::{Direction, Editor};

fn editor_with(lines: &[&str], row: usize, col: usize) -> Editor {
    let mut e = Editor::new();
    e.lines = lines.iter().map(|l| l.to_string()).collect();
    e.cursor_y = row;
    e.cursor_x = col;
    e
}

fn lines_of(e: &Editor) -> Vec<&str> {
    e.lines.iter().map(|l| l.as_str()).collect()
}

#[test]
fn new_buffer_has_one_empty_line() {
    let e = Editor::new();
    assert_eq!(lines_of(&e), vec![""]);
    assert_eq!((e.cursor_y, e.cursor_x), (0, 0));
    assert!(!e.is_changed);
}

#[test]
fn insert_char_at_end_of_line() {
    let mut e = editor_with(&["abc"], 0, 3);
    e.insert_char('d');
    assert_eq!(lines_of(&e), vec!["abcd"]);
    assert_eq!((e.cursor_y, e.cursor_x), (0, 4));
    assert!(e.is_changed);
}

#[test]
fn insert_char_in_middle_of_multibyte_line() {
    let mut e = editor_with(&["héllo"], 0, 2);
    e.insert_char('ß');
    assert_eq!(lines_of(&e), vec!["héßllo"]);
    assert_eq!(e.cursor_x, 3);
}

#[test]
fn delete_backward_joins_lines() {
    let mut e = editor_with(&["ab", "cd"], 1, 0);
    e.delete_char();
    assert_eq!(lines_of(&e), vec!["abcd"]);
    assert_eq!((e.cursor_y, e.cursor_x), (0, 2));
    assert!(e.is_changed);
}

#[test]
fn delete_backward_join_counts_characters_not_bytes() {
    let mut e = editor_with(&["äö", "x"], 1, 0);
    e.delete_char();
    assert_eq!(lines_of(&e), vec!["äöx"]);
    assert_eq!((e.cursor_y, e.cursor_x), (0, 2));
}

#[test]
fn delete_backward_removes_multibyte_char() {
    let mut e = editor_with(&["aéb"], 0, 2);
    e.delete_char();
    assert_eq!(lines_of(&e), vec!["ab"]);
    assert_eq!(e.cursor_x, 1);
}

#[test]
fn delete_backward_at_document_start_is_noop() {
    let mut e = editor_with(&["ab"], 0, 0);
    e.delete_char();
    assert_eq!(lines_of(&e), vec!["ab"]);
    assert_eq!((e.cursor_y, e.cursor_x), (0, 0));
    assert!(!e.is_changed);
}

#[test]
fn insert_then_delete_restores_line() {
    let mut e = editor_with(&["xyz", "ab€d"], 1, 2);
    e.insert_char('q');
    e.delete_char();
    assert_eq!(lines_of(&e), vec!["xyz", "ab€d"]);
    assert_eq!((e.cursor_y, e.cursor_x), (1, 2));
}

#[test]
fn newline_splits_line() {
    let mut e = editor_with(&["hello", "x"], 0, 2);
    e.insert_new_line();
    assert_eq!(lines_of(&e), vec!["he", "llo", "x"]);
    assert_eq!((e.cursor_y, e.cursor_x), (1, 0));
    assert!(e.is_changed);
}

#[test]
fn newline_then_delete_restores_line() {
    let mut e = editor_with(&["añb"], 0, 2);
    e.insert_new_line();
    e.delete_char();
    assert_eq!(lines_of(&e), vec!["añb"]);
    assert_eq!((e.cursor_y, e.cursor_x), (0, 2));
}

#[test]
fn move_up_and_down_clamp_column() {
    let mut e = editor_with(&["a", "abcdef", "ab"], 1, 5);
    e.move_cursor(Direction::Up);
    assert_eq!((e.cursor_y, e.cursor_x), (0, 1));
    let mut e = editor_with(&["a", "abcdef", "ab"], 1, 5);
    e.move_cursor(Direction::Down);
    assert_eq!((e.cursor_y, e.cursor_x), (2, 2));
    e.move_cursor(Direction::Down);
    assert_eq!((e.cursor_y, e.cursor_x), (2, 2));
    assert!(!e.is_changed);
}

#[test]
fn move_left_and_right_wrap_lines() {
    let mut e = editor_with(&["ab", "c"], 1, 0);
    e.move_cursor(Direction::Left);
    assert_eq!((e.cursor_y, e.cursor_x), (0, 2));
    e.move_cursor(Direction::Right);
    assert_eq!((e.cursor_y, e.cursor_x), (1, 0));
    e.move_cursor(Direction::Right);
    assert_eq!((e.cursor_y, e.cursor_x), (1, 1));
    e.move_cursor(Direction::Right);
    assert_eq!((e.cursor_y, e.cursor_x), (1, 1));
    let mut e = editor_with(&["ab"], 0, 0);
    e.move_cursor(Direction::Left);
    e.move_cursor(Direction::Up);
    assert_eq!((e.cursor_y, e.cursor_x), (0, 0));
}

#[test]
fn cursor_stays_valid_over_many_moves() {
    let mut e = editor_with(&["abc", "", "héllo wörld", "z"], 0, 0);
    let moves = [
        Direction::Right,
        Direction::Down,
        Direction::Right,
        Direction::Down,
        Direction::Right,
        Direction::Right,
        Direction::Up,
        Direction::Left,
        Direction::Down,
        Direction::Down,
        Direction::Down,
        Direction::Right,
        Direction::Right,
    ];
    for m in moves {
        e.move_cursor(m);
        assert!(e.cursor_y < e.lines.len());
        assert!(e.cursor_x <= e.lines[e.cursor_y].chars().count());
    }
}

#[test]
fn scroll_follows_cursor() {
    let mut e = editor_with(&["0", "1", "2", "3", "4", "5", "6", "7", "8", "9"], 9, 0);
    e.scroll(4, 3);
    assert_eq!(e.row_offset, 7);
    e.cursor_y = 2;
    e.scroll(4, 3);
    assert_eq!(e.row_offset, 2);
    e.lines[2] = "abcdefghij".to_string();
    e.cursor_x = 9;
    e.scroll(4, 3);
    assert_eq!(e.col_offset, 6);
}

#[test]
fn contents_terminates_every_line() {
    let e = editor_with(&["ab", "", "ç"], 0, 0);
    assert_eq!(e.contents(), "ab\n\nç\n");
}

#[test]
fn save_then_load_round_trip() {
    let e = editor_with(&["first", "", "thïrd line"], 2, 3);
    let text = e.contents();
    let back = Editor::from_text(&text);
    assert_eq!(back.lines, e.lines);
    assert_eq!((back.cursor_y, back.cursor_x), (0, 0));
    assert!(!back.is_changed);
}

#[test]
fn load_empty_text_gives_one_empty_line() {
    let e = Editor::from_text("");
    assert_eq!(lines_of(&e), vec![""]);
}

#[test]
fn load_splits_on_newlines() {
    let e = Editor::from_text("a\n\nb");
    assert_eq!(lines_of(&e), vec!["a", "", "b"]);
    let e = Editor::from_text("a\nb\n");
    assert_eq!(lines_of(&e), vec!["a", "b"]);
    let e = Editor::from_text("\n");
    assert_eq!(lines_of(&e), vec![""]);
}

#[test]
fn mark_saved_clears_changed_flag() {
    let mut e = editor_with(&["a"], 0, 1);
    e.insert_char('b');
    e.mark_saved();
    assert!(!e.is_changed);
    assert_eq!(lines_of(&e), vec!["ab"]);
}
