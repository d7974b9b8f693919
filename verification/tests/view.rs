use editor_core::editorcommand::{Direction, EditorCommand};
use editor_core::position::{Location, Position, Size};
use editor_core::view::View;

fn view_of(contents: &str, height: usize, width: usize) -> View {
    let mut view = View::new(Size { height, width }, 0);
    view.load("document.txt", contents);
    view
}

fn at(line_index: usize, grapheme_index: usize) -> Location {
    Location { grapheme_index, line_index }
}

fn go(view: &mut View, direction: Direction) {
    view.handle_command(EditorCommand::Move(direction));
}

fn texts(view: &View) -> Vec<String> {
    view.buffer().lines.iter().map(|line| line.to_string()).collect()
}

fn cursor_in_view(view: &View) -> bool {
    let line = view.text_location().line_index;
    let column = match view.buffer().lines.get(line) {
        Some(found) => found.width_until(view.text_location().grapheme_index),
        None => 0,
    };
    let scroll = view.scroll_offset();
    let size = view.size();
    scroll.x <= column && column < scroll.x + size.width && scroll.y <= line
        && line < scroll.y + size.height
}

#[test]
fn new_view_is_empty_and_out_of_date() {
    let view = View::new(Size { height: 24, width: 80 }, 2);
    assert_eq!(view.size(), Size { height: 22, width: 80 });
    assert_eq!(view.text_location(), at(0, 0));
    assert_eq!(view.scroll_offset(), Position { x: 0, y: 0 });
    assert!(view.needs_redraw());
    assert!(view.buffer().is_empty());
    let small = View::new(Size { height: 1, width: 80 }, 2);
    assert_eq!(small.size(), Size { height: 0, width: 80 });
}

#[test]
fn right_at_the_end_of_a_line_wraps_to_the_next() {
    let mut view = view_of("ab\ncd", 10, 10);
    go(&mut view, Direction::End);
    assert_eq!(view.text_location(), at(0, 2));
    go(&mut view, Direction::Right);
    assert_eq!(view.text_location(), at(1, 0));
}

#[test]
fn right_walks_over_every_grapheme_in_order() {
    let mut view = view_of("ab\n\nc\u{1f642}d", 10, 10);
    let mut visited = vec![view.text_location()];
    for _ in 0..12 {
        go(&mut view, Direction::Right);
        visited.push(view.text_location());
    }
    let expected = vec![
        at(0, 0),
        at(0, 1),
        at(0, 2),
        at(1, 0),
        at(2, 0),
        at(2, 1),
        at(2, 2),
        at(2, 3),
        at(2, 3),
        at(2, 3),
        at(2, 3),
        at(2, 3),
        at(2, 3),
    ];
    assert_eq!(visited, expected);
}

#[test]
fn right_in_an_empty_document_stays() {
    let mut view = View::new(Size { height: 5, width: 5 }, 0);
    go(&mut view, Direction::Right);
    assert_eq!(view.text_location(), at(0, 0));
}

#[test]
fn left_at_the_start_of_a_line_wraps_to_the_previous() {
    let mut view = view_of("ab\ncd", 10, 10);
    go(&mut view, Direction::Left);
    assert_eq!(view.text_location(), at(0, 0));
    go(&mut view, Direction::Down);
    go(&mut view, Direction::Left);
    assert_eq!(view.text_location(), at(0, 2));
    go(&mut view, Direction::Left);
    assert_eq!(view.text_location(), at(0, 1));
}

#[test]
fn up_and_down_snap_to_the_length_of_the_line() {
    let mut view = view_of("abcdef\nab\nabcdef", 10, 10);
    go(&mut view, Direction::End);
    assert_eq!(view.text_location(), at(0, 6));
    go(&mut view, Direction::Down);
    assert_eq!(view.text_location(), at(1, 2));
    go(&mut view, Direction::Down);
    assert_eq!(view.text_location(), at(2, 2));
    go(&mut view, Direction::Down);
    assert_eq!(view.text_location(), at(3, 0));
    go(&mut view, Direction::Down);
    assert_eq!(view.text_location(), at(3, 0));
    go(&mut view, Direction::Up);
    assert_eq!(view.text_location(), at(2, 0));
    go(&mut view, Direction::Up);
    go(&mut view, Direction::Up);
    go(&mut view, Direction::Up);
    assert_eq!(view.text_location(), at(0, 0));
}

#[test]
fn pages_are_one_row_less_than_the_viewport() {
    let mut view = view_of("0\n1\n2\n3\n4\n5\n6\n7\n8\n9", 4, 10);
    go(&mut view, Direction::PageDown);
    assert_eq!(view.text_location(), at(3, 0));
    go(&mut view, Direction::PageDown);
    go(&mut view, Direction::PageDown);
    assert_eq!(view.text_location(), at(9, 0));
    go(&mut view, Direction::PageDown);
    assert_eq!(view.text_location(), at(10, 0));
    go(&mut view, Direction::PageUp);
    assert_eq!(view.text_location(), at(7, 0));
    go(&mut view, Direction::PageUp);
    go(&mut view, Direction::PageUp);
    go(&mut view, Direction::PageUp);
    assert_eq!(view.text_location(), at(0, 0));
}

#[test]
fn home_and_end_go_to_the_ends_of_the_line() {
    let mut view = view_of("abc\nde", 10, 10);
    go(&mut view, Direction::End);
    assert_eq!(view.text_location(), at(0, 3));
    go(&mut view, Direction::Home);
    assert_eq!(view.text_location(), at(0, 0));
}

#[test]
fn viewport_follows_the_cursor_down_and_up() {
    let mut view = view_of("0\n1\n2\n3\n4\n5\n6\n7\n8\n9", 3, 10);
    for _ in 0..2 {
        go(&mut view, Direction::Down);
    }
    assert_eq!(view.scroll_offset(), Position { x: 0, y: 0 });
    for _ in 0..3 {
        go(&mut view, Direction::Down);
    }
    assert_eq!(view.text_location(), at(5, 0));
    assert_eq!(view.scroll_offset(), Position { x: 0, y: 3 });
    go(&mut view, Direction::Up);
    assert_eq!(view.scroll_offset(), Position { x: 0, y: 3 });
    for _ in 0..2 {
        go(&mut view, Direction::Up);
    }
    assert_eq!(view.text_location(), at(2, 0));
    assert_eq!(view.scroll_offset(), Position { x: 0, y: 2 });
}

#[test]
fn viewport_follows_the_cursor_sideways_by_columns() {
    let mut view = view_of("a\u{1f642}\u{4e2d}bcdef", 5, 4);
    go(&mut view, Direction::Right);
    go(&mut view, Direction::Right);
    assert_eq!(view.scroll_offset(), Position { x: 0, y: 0 });
    assert_eq!(view.caret_position(), Position { x: 3, y: 0 });
    go(&mut view, Direction::Right);
    assert_eq!(view.scroll_offset(), Position { x: 2, y: 0 });
    assert_eq!(view.caret_position(), Position { x: 3, y: 0 });
    go(&mut view, Direction::End);
    assert_eq!(view.scroll_offset(), Position { x: 7, y: 0 });
    go(&mut view, Direction::Home);
    assert_eq!(view.scroll_offset(), Position { x: 0, y: 0 });
    assert_eq!(view.caret_position(), Position { x: 0, y: 0 });
}

#[test]
fn cursor_stays_in_view_after_moves_and_resizes() {
    let mut view = view_of("abcdefghij\nk\n\nlmnopqrstuvw\nx\ny\nz", 3, 4);
    let moves = [
        Direction::End,
        Direction::Down,
        Direction::Down,
        Direction::Down,
        Direction::End,
        Direction::PageDown,
        Direction::Right,
        Direction::Up,
        Direction::Left,
        Direction::PageUp,
        Direction::Home,
        Direction::Down,
        Direction::Down,
        Direction::Down,
        Direction::Down,
        Direction::Down,
        Direction::Down,
    ];
    for direction in moves {
        go(&mut view, direction);
        assert!(cursor_in_view(&view));
    }
    for size in [Size { height: 1, width: 1 }, Size { height: 2, width: 7 }, Size { height: 9, width: 2 }] {
        view.handle_command(EditorCommand::Resize(size));
        assert_eq!(view.size(), size);
        assert!(cursor_in_view(&view));
        go(&mut view, Direction::Up);
        go(&mut view, Direction::End);
        assert!(cursor_in_view(&view));
    }
}

#[test]
fn move_marks_the_screen_only_when_the_viewport_moves() {
    let mut view = view_of("0\n1\n2\n3", 2, 10);
    assert_eq!(view.render().len(), 2);
    assert!(!view.needs_redraw());
    go(&mut view, Direction::Down);
    assert!(!view.needs_redraw());
    go(&mut view, Direction::Down);
    assert!(view.needs_redraw());
    assert_eq!(view.scroll_offset(), Position { x: 0, y: 1 });
}

#[test]
fn render_without_cells_paints_nothing_and_stays_out_of_date() {
    let mut view = view_of("ab\ncd", 3, 3);
    view.resize(Size { height: 0, width: 0 });
    assert!(view.needs_redraw());
    assert!(view.render().is_empty());
    assert!(view.needs_redraw());
    view.resize(Size { height: 2, width: 2 });
    assert_eq!(view.render(), vec!["ab", "cd"]);
    assert!(!view.needs_redraw());
    assert!(view.render().is_empty());
}

#[test]
fn render_without_rows_or_without_columns_paints_nothing() {
    let mut view = view_of("ab", 0, 5);
    assert!(view.render().is_empty());
    assert!(view.needs_redraw());
    view.resize(Size { height: 5, width: 0 });
    assert!(view.render().is_empty());
    assert!(view.needs_redraw());
}

#[test]
fn render_shows_the_part_in_view() {
    let mut view = view_of("abcdef\n\u{1f642}\u{1f642}\u{1f642}\u{1f642}\nx", 4, 3);
    assert_eq!(view.render(), vec!["abc", "\u{1f642}\u{22ef}", "x", "~"]);
    go(&mut view, Direction::End);
    assert_eq!(view.scroll_offset(), Position { x: 4, y: 0 });
    assert_eq!(view.render(), vec!["ef", "\u{1f642}\u{22ef}", "", "~"]);
    view.resize(Size { height: 1, width: 2 });
    assert_eq!(view.scroll_offset(), Position { x: 5, y: 0 });
    assert_eq!(view.render(), vec!["f"]);
}

#[test]
fn render_of_an_empty_document_shows_the_banner() {
    let mut view = View::new(Size { height: 6, width: 40 }, 0);
    let rows = view.render();
    assert_eq!(rows.len(), 6);
    assert_eq!(rows[2], "~  editor_core editor -- version 0.1.0");
    for row in [0, 1, 3, 4, 5] {
        assert_eq!(rows[row], "~");
    }
    let mut narrow = View::new(Size { height: 3, width: 35 }, 0);
    assert_eq!(narrow.render(), vec!["~", "~", "~"]);
    let mut wide = View::new(Size { height: 1, width: 36 }, 0);
    assert_eq!(wide.render(), vec!["~editor_core editor -- version 0.1.0"]);
}

#[test]
fn typing_inserts_at_the_cursor_and_moves_on() {
    let mut view = view_of("ad", 5, 10);
    go(&mut view, Direction::Right);
    view.handle_command(EditorCommand::PrintChar('b'));
    view.handle_command(EditorCommand::PrintChar('c'));
    assert_eq!(texts(&view), vec!["abcd"]);
    assert_eq!(view.text_location(), at(0, 3));
    assert!(view.needs_redraw());
    assert!(view.buffer().dirty);
}

#[test]
fn typing_into_an_empty_document_starts_a_line() {
    let mut view = View::new(Size { height: 5, width: 10 }, 0);
    view.handle_command(EditorCommand::PrintChar('x'));
    assert_eq!(texts(&view), vec!["x"]);
    assert_eq!(view.text_location(), at(0, 1));
}

#[test]
fn typing_an_accent_does_not_move_the_cursor() {
    let mut view = view_of("e", 5, 10);
    go(&mut view, Direction::End);
    view.handle_command(EditorCommand::PrintChar('\u{301}'));
    assert_eq!(texts(&view), vec!["e\u{301}"]);
    assert_eq!(view.text_location(), at(0, 1));
    assert!(view.needs_redraw());
}

#[test]
fn tab_is_typed_as_a_tab() {
    let mut view = view_of("ab", 5, 10);
    view.handle_command(EditorCommand::Tab);
    assert_eq!(texts(&view), vec!["\tab"]);
    assert_eq!(view.text_location(), at(0, 1));
    assert_eq!(view.caret_position(), Position { x: 1, y: 0 });
    assert_eq!(view.render()[0], " ab");
}

#[test]
fn enter_breaks_the_line_and_goes_to_the_new_one() {
    let mut view = view_of("abcd", 5, 10);
    go(&mut view, Direction::Right);
    go(&mut view, Direction::Right);
    view.handle_command(EditorCommand::Enter);
    assert_eq!(texts(&view), vec!["ab", "cd"]);
    assert_eq!(view.text_location(), at(1, 0));
    assert!(view.buffer().dirty);
}

#[test]
fn enter_after_the_last_line_adds_an_empty_line() {
    let mut view = view_of("ab", 5, 10);
    go(&mut view, Direction::Down);
    assert_eq!(view.text_location(), at(1, 0));
    view.handle_command(EditorCommand::Enter);
    assert_eq!(texts(&view), vec!["ab", ""]);
    assert_eq!(view.text_location(), at(1, 0));
}

#[test]
fn delete_removes_the_grapheme_under_the_cursor() {
    let mut view = view_of("a\u{1f642}b\ncd", 5, 10);
    go(&mut view, Direction::Right);
    view.handle_command(EditorCommand::Delete);
    assert_eq!(texts(&view), vec!["ab", "cd"]);
    assert_eq!(view.text_location(), at(0, 1));
    go(&mut view, Direction::End);
    view.handle_command(EditorCommand::Delete);
    assert_eq!(texts(&view), vec!["abcd"]);
    assert_eq!(view.text_location(), at(0, 2));
}

#[test]
fn backspace_removes_the_grapheme_before_the_cursor() {
    let mut view = view_of("abc", 5, 10);
    go(&mut view, Direction::End);
    view.handle_command(EditorCommand::Backspace);
    assert_eq!(texts(&view), vec!["ab"]);
    assert_eq!(view.text_location(), at(0, 2));
}

#[test]
fn backspace_at_the_start_of_a_line_joins_it_to_the_previous() {
    let mut view = view_of("ab\ncd", 5, 10);
    go(&mut view, Direction::Down);
    view.handle_command(EditorCommand::Backspace);
    assert_eq!(texts(&view), vec!["abcd"]);
    assert_eq!(view.text_location(), at(0, 2));
}

#[test]
fn backspace_at_the_start_of_the_document_does_nothing() {
    let mut view = view_of("ab", 5, 10);
    let _ = view.render();
    view.handle_command(EditorCommand::Backspace);
    assert_eq!(texts(&view), vec!["ab"]);
    assert_eq!(view.text_location(), at(0, 0));
    assert!(!view.needs_redraw());
    assert!(!view.buffer().dirty);
}

#[test]
fn quit_nothing_and_save_leave_the_view_alone() {
    let mut view = view_of("ab", 5, 10);
    let _ = view.render();
    go(&mut view, Direction::Right);
    for command in [EditorCommand::Quit, EditorCommand::Nothing, EditorCommand::Save] {
        view.handle_command(command);
        assert_eq!(texts(&view), vec!["ab"]);
        assert_eq!(view.text_location(), at(0, 1));
        assert!(!view.needs_redraw());
        assert!(!view.buffer().dirty);
    }
}

#[test]
fn caret_counts_columns_not_graphemes() {
    let mut view = view_of("\u{1f642}\u{4e2d}a", 5, 20);
    go(&mut view, Direction::Right);
    assert_eq!(view.caret_position(), Position { x: 2, y: 0 });
    go(&mut view, Direction::Right);
    assert_eq!(view.caret_position(), Position { x: 4, y: 0 });
    go(&mut view, Direction::Right);
    assert_eq!(view.caret_position(), Position { x: 5, y: 0 });
}

#[test]
fn status_tells_lines_cursor_and_changes() {
    let mut view = view_of("ab\ncd\nef", 5, 10);
    go(&mut view, Direction::Down);
    let status = view.get_status();
    assert_eq!(status.total_lines, 3);
    assert_eq!(status.current_line_index, 1);
    assert!(!status.is_modified);
    assert_eq!(status.file_name, "document.txt");
    view.handle_command(EditorCommand::Delete);
    assert!(view.get_status().is_modified);
    let fresh = View::new(Size { height: 5, width: 5 }, 0);
    assert_eq!(fresh.get_status().file_name, "[No Name]");
    assert_eq!(fresh.get_status().total_lines, 0);
}

#[test]
fn load_replaces_the_document_and_keeps_the_cursor_inside() {
    let mut view = view_of("0\n1\n2\n3\n4\n5 is long", 2, 3);
    go(&mut view, Direction::PageDown);
    for _ in 0..4 {
        go(&mut view, Direction::Down);
    }
    go(&mut view, Direction::End);
    assert_eq!(view.text_location(), at(5, 9));
    view.handle_command(EditorCommand::PrintChar('!'));
    let _ = view.render();
    view.load("other.txt", "ab\ncd");
    assert_eq!(texts(&view), vec!["ab", "cd"]);
    assert_eq!(view.text_location(), at(2, 0));
    assert!(cursor_in_view(&view));
    assert!(view.needs_redraw());
    assert!(!view.buffer().dirty);
    assert_eq!(view.get_status().file_name, "other.txt");
}

#[test]
fn save_request_and_mark_saved_go_through_to_the_document() {
    let mut view = view_of("ab\ncd", 5, 10);
    view.handle_command(EditorCommand::PrintChar('x'));
    let request = view.save_request().unwrap();
    assert_eq!(request.path, "document.txt");
    assert_eq!(request.contents, "xab\ncd");
    assert!(view.buffer().dirty);
    view.mark_saved();
    assert!(!view.buffer().dirty);
    let fresh = View::new(Size { height: 5, width: 5 }, 0);
    assert!(fresh.save_request().is_none());
}

#[test]
fn draw_paints_whatever_the_screen_is_marked_as() {
    let mut view = view_of("ab", 2, 1);
    let _ = view.render();
    assert!(!view.needs_redraw());
    assert_eq!(view.draw(), vec!["a", "~"]);
    view.set_needs_redraw(true);
    assert!(view.needs_redraw());
    view.set_needs_redraw(false);
    view.set_size(Size { height: 1, width: 5 });
    assert_eq!(view.size(), Size { height: 1, width: 5 });
    assert!(!view.needs_redraw());
    assert_eq!(view.draw(), vec!["ab"]);
}

#[test]
fn set_size_marks_the_screen_only_when_the_viewport_moves() {
    let mut view = view_of("0\n1\n2\n3", 4, 4);
    go(&mut view, Direction::Down);
    go(&mut view, Direction::Down);
    go(&mut view, Direction::Down);
    let _ = view.render();
    view.set_size(Size { height: 2, width: 4 });
    assert_eq!(view.scroll_offset(), Position { x: 0, y: 2 });
    assert!(view.needs_redraw());
    assert!(cursor_in_view(&view));
}
