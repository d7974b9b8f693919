use editor_core::buffer::{split_lines, Buffer};
use editor_core::position::Location;

fn texts(buffer: &Buffer) -> Vec<String> {
    buffer.lines.iter().map(|line| line.to_string()).collect()
}

fn at(line_index: usize, grapheme_index: usize) -> Location {
    Location { grapheme_index, line_index }
}

#[test]
fn text_is_cut_at_line_endings() {
    assert_eq!(split_lines(""), Vec::<String>::new());
    assert_eq!(split_lines("a"), vec!["a"]);
    assert_eq!(split_lines("a\n"), vec!["a"]);
    assert_eq!(split_lines("a\nb"), vec!["a", "b"]);
    assert_eq!(split_lines("a\r\nb\r\n"), vec!["a", "b"]);
    assert_eq!(split_lines("a\r"), vec!["a\r"]);
    assert_eq!(split_lines("\n"), vec![""]);
    assert_eq!(split_lines("a\n\nb"), vec!["a", "", "b"]);
    assert_eq!(split_lines("a\r\r\n"), vec!["a\r"]);
    assert_eq!(split_lines("a\n\rb"), vec!["a", "\rb"]);
    assert_eq!(split_lines("\r\n"), vec![""]);
}

#[test]
fn split_lines_agrees_with_the_standard_library() {
    for text in ["", "x", "x\n", "\n\n", "a\r\nb\rc\n\r\n", "\r", "\r\r", "a\nb\r", "\u{4e2d}\n\u{1f642}"] {
        let expected: Vec<String> = text.lines().map(|line| line.to_string()).collect();
        assert_eq!(split_lines(text), expected);
    }
}

#[test]
fn default_buffer_is_empty() {
    let buffer = Buffer::default();
    assert_eq!(buffer.height(), 0);
    assert!(buffer.is_empty());
    assert!(!buffer.dirty);
    assert_eq!(buffer.file_info.path, None);
}

#[test]
fn load_makes_one_line_for_each_line_of_text() {
    let buffer = Buffer::load("notes.txt", "ab\r\ncd\n\u{1f642}");
    assert_eq!(texts(&buffer), vec!["ab", "cd", "\u{1f642}"]);
    assert_eq!(buffer.height(), 3);
    assert!(!buffer.is_empty());
    assert!(!buffer.dirty);
    assert_eq!(buffer.file_info.path, Some("notes.txt".to_string()));
}

#[test]
fn insert_char_goes_into_the_line() {
    let mut buffer = Buffer::load("f", "ab\ncd");
    buffer.insert_char('x', at(1, 1));
    assert_eq!(texts(&buffer), vec!["ab", "cxd"]);
    assert!(buffer.dirty);
}

#[test]
fn insert_char_after_the_last_line_starts_a_line() {
    let mut buffer = Buffer::default();
    buffer.insert_char('x', at(0, 0));
    assert_eq!(texts(&buffer), vec!["x"]);
    assert!(buffer.dirty);
    buffer.insert_char('y', at(1, 5));
    assert_eq!(texts(&buffer), vec!["x", "y"]);
}

#[test]
fn insert_char_beyond_the_document_changes_nothing() {
    let mut buffer = Buffer::load("f", "ab");
    buffer.insert_char('x', at(2, 0));
    assert_eq!(texts(&buffer), vec!["ab"]);
    assert!(!buffer.dirty);
    buffer.insert_newline(at(2, 0));
    assert_eq!(texts(&buffer), vec!["ab"]);
    assert!(!buffer.dirty);
    buffer.delete(at(2, 0));
    buffer.delete(at(1, 0));
    assert_eq!(texts(&buffer), vec!["ab"]);
    assert!(!buffer.dirty);
}

#[test]
fn insert_newline_breaks_the_line() {
    let mut buffer = Buffer::load("f", "abcd\nef");
    buffer.insert_newline(at(0, 1));
    assert_eq!(texts(&buffer), vec!["a", "bcd", "ef"]);
    assert!(buffer.dirty);
    buffer.insert_newline(at(2, 2));
    assert_eq!(texts(&buffer), vec!["a", "bcd", "ef", ""]);
    buffer.insert_newline(at(0, 0));
    assert_eq!(texts(&buffer), vec!["", "a", "bcd", "ef", ""]);
    buffer.insert_newline(at(5, 0));
    assert_eq!(texts(&buffer), vec!["", "a", "bcd", "ef", "", ""]);
    buffer.insert_newline(at(1, 9));
    assert_eq!(texts(&buffer), vec!["", "a", "", "bcd", "ef", "", ""]);
}

#[test]
fn delete_takes_out_the_cluster_at_the_place() {
    let mut buffer = Buffer::load("f", "a\u{1f642}b\ncd");
    buffer.delete(at(0, 1));
    assert_eq!(texts(&buffer), vec!["ab", "cd"]);
    assert!(buffer.dirty);
}

#[test]
fn delete_at_the_end_of_a_line_joins_the_next() {
    let mut buffer = Buffer::load("f", "ab\ncd\nef");
    buffer.delete(at(0, 2));
    assert_eq!(texts(&buffer), vec!["abcd", "ef"]);
    assert!(buffer.dirty);
    assert_eq!(buffer.height(), 2);
}

#[test]
fn delete_at_the_end_of_the_document_changes_nothing() {
    let mut buffer = Buffer::load("f", "ab\ncd");
    buffer.delete(at(1, 2));
    assert_eq!(texts(&buffer), vec!["ab", "cd"]);
    assert!(!buffer.dirty);
}

#[test]
fn save_request_joins_the_lines() {
    let buffer = Buffer::load("notes.txt", "ab\r\ncd\n");
    let request = buffer.save_request().unwrap();
    assert_eq!(request.path, "notes.txt");
    assert_eq!(request.contents, "ab\ncd");
    let single = Buffer::load("one", "only").save_request().unwrap();
    assert_eq!(single.contents, "only");
    let empty = Buffer::load("none", "").save_request().unwrap();
    assert_eq!(empty.contents, "");
}

#[test]
fn save_request_needs_a_file() {
    let mut buffer = Buffer::default();
    buffer.insert_char('x', at(0, 0));
    assert!(buffer.save_request().is_none());
}

#[test]
fn mark_saved_clears_the_flag() {
    let mut buffer = Buffer::load("f", "ab");
    buffer.insert_char('x', at(0, 0));
    assert!(buffer.dirty);
    buffer.mark_saved();
    assert!(!buffer.dirty);
    assert_eq!(texts(&buffer), vec!["xab"]);
}
