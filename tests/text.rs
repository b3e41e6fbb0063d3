use kk::{join_text, split_lines};

#[test]
fn split_lines_keeps_empty_lines() {
    assert_eq!(split_lines("x\n\ny"), vec!["x", "", "y"]);
}

#[test]
fn split_lines_of_empty_text() {
    assert_eq!(split_lines(""), vec![""]);
}

#[test]
fn split_lines_drops_final_newline_only() {
    assert_eq!(split_lines("a\n\n"), vec!["a", ""]);
}

#[test]
fn join_then_split_round_trip() {
    let lines: Vec<String> = vec!["αβγ".to_string(), String::new(), "end".to_string()];
    let text = join_text(&lines);
    assert_eq!(text, "αβγ\n\nend\n");
    assert_eq!(split_lines(&text), lines);
}
