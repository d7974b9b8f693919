use editor_core::commandbar::CommandBar;
use editor_core::documentstatus::{push_decimal, DocumentStatus};
use editor_core::editorcommand::Edit;
use editor_core::fileinfo::{display_name, FileInfo};
use editor_core::messagebar::{expired_after, MessageBar, DEFAULT_DURATION};
use editor_core::position::Size;
use editor_core::statusbar::StatusBar;

fn status(total_lines: usize, current_line_index: usize, is_modified: bool, name: &str) -> DocumentStatus {
    DocumentStatus { total_lines, current_line_index, is_modified, file_name: name.to_string() }
}

#[test]
fn decimal_digits_are_pushed_in_order() {
    for n in [0, 7, 10, 42, 100, 9999, 1234567890, usize::MAX] {
        let mut text = String::from("n=");
        push_decimal(&mut text, n);
        assert_eq!(text, format!("n={}", n));
    }
}

#[test]
fn modified_indicator_shows_only_for_changed_documents() {
    assert_eq!(status(1, 0, true, "a").modified_indicator_to_string(), "(modified)");
    assert_eq!(status(1, 0, false, "a").modified_indicator_to_string(), "");
}

#[test]
fn line_count_is_told_in_words() {
    assert_eq!(status(0, 0, false, "a").line_count_to_string(), "0 lines");
    assert_eq!(status(1, 0, false, "a").line_count_to_string(), "1 lines");
    assert_eq!(status(1203, 0, false, "a").line_count_to_string(), "1203 lines");
}

#[test]
fn position_indicator_counts_lines_from_one() {
    assert_eq!(status(10, 0, false, "a").position_indicator_to_string(), "1/10");
    assert_eq!(status(10, 9, false, "a").position_indicator_to_string(), "10/10");
    assert_eq!(
        status(3, usize::MAX, false, "a").position_indicator_to_string(),
        format!("{}/3", usize::MAX)
    );
}

#[test]
fn document_status_compares_by_content() {
    assert_eq!(status(3, 1, true, "a"), status(3, 1, true, "a"));
    assert_ne!(status(3, 1, true, "a"), status(3, 1, true, "b"));
    assert_ne!(status(3, 1, true, "a"), status(3, 1, false, "a"));
    assert_ne!(status(3, 1, true, "a"), status(3, 2, true, "a"));
    assert_ne!(status(3, 1, true, "a"), status(4, 1, true, "a"));
    assert_eq!(DocumentStatus::default(), status(0, 0, false, ""));
}

#[test]
fn file_info_shows_the_last_component() {
    assert_eq!(FileInfo::from("notes.txt").to_string(), "notes.txt");
    assert_eq!(FileInfo::from("some/dir/notes.txt").to_string(), "notes.txt");
    assert_eq!(FileInfo::from("some/dir/..").to_string(), "[No Name]");
    assert_eq!(FileInfo::default().to_string(), "[No Name]");
    assert_eq!(FileInfo::from("a/b").path, Some("a/b".to_string()));
    assert_eq!(FileInfo::from("a/b").clone().path, Some("a/b".to_string()));
}

#[test]
fn display_name_falls_back_to_no_name() {
    assert_eq!(display_name(Some("x.rs".to_string())), "x.rs");
    assert_eq!(display_name(None), "[No Name]");
}

#[test]
fn status_bar_puts_the_position_at_the_right_edge() {
    let mut bar = StatusBar::default();
    bar.set_size(Size { height: 1, width: 40 });
    bar.update_status(status(12, 2, true, "notes.txt"));
    assert_eq!(bar.draw(), "notes.txt - 12 lines (modified)     3/12");
    assert_eq!(bar.draw().len(), 40);
    bar.update_status(status(12, 2, false, "notes.txt"));
    assert_eq!(bar.draw(), "notes.txt - 12 lines                3/12");
}

#[test]
fn status_bar_shows_nothing_where_the_line_does_not_fit() {
    let mut bar = StatusBar::default();
    bar.update_status(status(12, 2, false, "notes.txt"));
    bar.set_size(Size { height: 1, width: 25 });
    assert_eq!(bar.draw(), "notes.txt - 12 lines 3/12");
    bar.set_size(Size { height: 1, width: 24 });
    assert_eq!(bar.draw(), "");
    bar.set_size(Size { height: 1, width: 0 });
    assert_eq!(bar.draw(), "");
}

#[test]
fn status_bar_reckons_the_room_in_bytes() {
    let mut bar = StatusBar::default();
    bar.update_status(status(1, 0, false, "\u{4e2d}"));
    bar.set_size(Size { height: 1, width: 20 });
    assert_eq!(bar.draw(), "\u{4e2d} - 1 lines    1/1");
    assert_eq!(bar.draw().len(), 20);
}

#[test]
fn status_bar_is_out_of_date_after_a_new_status() {
    let mut bar = StatusBar::default();
    assert!(!bar.needs_redraw());
    bar.update_status(DocumentStatus::default());
    assert!(!bar.needs_redraw());
    bar.update_status(status(1, 0, false, "a"));
    assert!(bar.needs_redraw());
    bar.resize(Size { height: 1, width: 12 });
    assert_eq!(bar.render(), Some(String::new()));
    assert!(!bar.needs_redraw());
    assert_eq!(bar.render(), None);
    bar.update_status(status(1, 0, false, "a"));
    assert!(!bar.needs_redraw());
    bar.set_needs_redraw(true);
    assert!(bar.needs_redraw());
    bar.resize(Size { height: 1, width: 15 });
    assert_eq!(bar.render(), Some("a - 1 lines 1/1".to_string()));
}

#[test]
fn message_bar_shows_a_fresh_message_once() {
    let mut bar = MessageBar::default();
    assert!(!bar.needs_redraw());
    bar.update_message("hello");
    assert!(bar.needs_redraw());
    assert_eq!(bar.draw(), "hello");
    assert_eq!(bar.render(), Some("hello".to_string()));
    assert!(!bar.needs_redraw());
    assert_eq!(bar.render(), None);
    bar.resize(Size { height: 1, width: 10 });
    assert!(bar.needs_redraw());
    bar.set_needs_redraw(false);
    assert!(!bar.needs_redraw());
    bar.set_size(Size { height: 1, width: 3 });
    assert!(!bar.needs_redraw());
}

#[test]
fn message_bar_wipes_a_message_that_has_run_out() {
    let mut bar = MessageBar::default();
    bar.update_message("hello");
    bar.set_needs_redraw(false);
    assert!(!bar.needs_redraw_when(false));
    assert!(bar.needs_redraw_when(true));
    assert_eq!(bar.draw_when(true), "");
    assert!(!bar.needs_redraw_when(true));
    assert_eq!(bar.draw_when(false), "hello");
    bar.update_message("again");
    assert!(bar.needs_redraw_when(false));
    bar.set_needs_redraw(false);
    assert!(bar.needs_redraw_when(true));
}

#[test]
fn command_bar_takes_typed_text() {
    let mut bar = CommandBar::default();
    bar.set_size(Size { height: 1, width: 20 });
    bar.set_prompt("Save as: ");
    assert!(!bar.needs_redraw());
    for character in ['a', '\u{1f642}', 'b'] {
        bar.handle_edit_command(Edit::Insert(character));
    }
    assert!(bar.needs_redraw());
    assert_eq!(bar.value(), "a\u{1f642}b");
    assert_eq!(bar.draw(), "Save as: a\u{1f642}b");
    assert_eq!(bar.caret_position_col(), 12);
    bar.handle_edit_command(Edit::DeleteBackward);
    assert_eq!(bar.value(), "a\u{1f642}");
    bar.handle_edit_command(Edit::Delete);
    bar.handle_edit_command(Edit::InsertNewline);
    assert_eq!(bar.value(), "a\u{1f642}");
    bar.set_needs_redraw(false);
    assert!(!bar.needs_redraw());
}

#[test]
fn command_bar_shows_the_end_of_a_long_value() {
    let mut bar = CommandBar::default();
    bar.set_prompt("> ");
    bar.set_size(Size { height: 1, width: 6 });
    for character in ['a', 'b', 'c', 'd', 'e', 'f'] {
        bar.handle_edit_command(Edit::Insert(character));
    }
    assert_eq!(bar.draw(), "> cdef");
    assert_eq!(bar.caret_position_col(), 6);
    bar.set_size(Size { height: 1, width: 1 });
    assert_eq!(bar.draw(), "");
    assert_eq!(bar.caret_position_col(), 1);
}

#[test]
fn message_runs_out_after_five_seconds() {
    assert_eq!(DEFAULT_DURATION, 5_000_000_000);
    assert!(!expired_after(0));
    assert!(!expired_after(4_999_999_999));
    assert!(!expired_after(5_000_000_000));
    assert!(expired_after(5_000_000_001));
    assert!(expired_after(u128::MAX));
}
