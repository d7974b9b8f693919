use editor_core::editorcommand::{
    Direction, EditorCommand, Event, EventNotSupported, Key, CONTROL, NO_MODIFIERS, SHIFT,
};
use editor_core::position::{Location, Position, Size};

fn key(code: Key, modifiers: u8) -> Event {
    Event::Key { code, modifiers, pressed: true }
}

#[test]
fn control_q_quits_and_control_s_saves() {
    assert_eq!(EditorCommand::try_from(key(Key::Char('q'), CONTROL)), Ok(EditorCommand::Quit));
    assert_eq!(EditorCommand::try_from(key(Key::Char('s'), CONTROL)), Ok(EditorCommand::Save));
    assert_eq!(EditorCommand::try_from(key(Key::Char('x'), CONTROL)), Ok(EditorCommand::Nothing));
    assert_eq!(
        EditorCommand::try_from(key(Key::Char('q'), CONTROL | SHIFT)),
        Ok(EditorCommand::Nothing)
    );
}

#[test]
fn characters_type_themselves_alone_or_with_shift() {
    assert_eq!(
        EditorCommand::try_from(key(Key::Char('q'), NO_MODIFIERS)),
        Ok(EditorCommand::PrintChar('q'))
    );
    assert_eq!(
        EditorCommand::try_from(key(Key::Char('S'), SHIFT)),
        Ok(EditorCommand::PrintChar('S'))
    );
    assert_eq!(EditorCommand::try_from(key(Key::Char('a'), 4)), Ok(EditorCommand::Nothing));
}

#[test]
fn keys_that_move_or_edit_ignore_modifiers() {
    let table = [
        (Key::Up, EditorCommand::Move(Direction::Up)),
        (Key::Down, EditorCommand::Move(Direction::Down)),
        (Key::Left, EditorCommand::Move(Direction::Left)),
        (Key::Right, EditorCommand::Move(Direction::Right)),
        (Key::PageUp, EditorCommand::Move(Direction::PageUp)),
        (Key::PageDown, EditorCommand::Move(Direction::PageDown)),
        (Key::Home, EditorCommand::Move(Direction::Home)),
        (Key::End, EditorCommand::Move(Direction::End)),
        (Key::Backspace, EditorCommand::Backspace),
        (Key::Delete, EditorCommand::Delete),
        (Key::Tab, EditorCommand::Tab),
        (Key::Enter, EditorCommand::Enter),
        (Key::Other, EditorCommand::Nothing),
    ];
    for (code, command) in table {
        for modifiers in [NO_MODIFIERS, SHIFT, CONTROL, 4, 63] {
            assert_eq!(EditorCommand::try_from(key(code, modifiers)), Ok(command));
        }
    }
}

#[test]
fn resize_event_gives_rows_and_columns() {
    assert_eq!(
        EditorCommand::try_from(Event::Resize(80, 24)),
        Ok(EditorCommand::Resize(Size { height: 24, width: 80 }))
    );
}

#[test]
fn other_events_are_not_supported() {
    assert_eq!(EditorCommand::try_from(Event::Other), Err(EventNotSupported));
}

#[test]
fn position_difference_stops_at_the_origin() {
    let cursor = Position { x: 7, y: 3 };
    assert_eq!(cursor.saturating_sub(Position { x: 2, y: 1 }), Position { x: 5, y: 2 });
    assert_eq!(cursor.saturating_sub(Position { x: 9, y: 3 }), Position { x: 0, y: 0 });
    assert_eq!(cursor.saturating_sub(Position { x: 0, y: 4 }), Position { x: 7, y: 0 });
}

#[test]
fn defaults_are_at_the_origin() {
    assert_eq!(Position::default(), Position { x: 0, y: 0 });
    assert_eq!(Size::default(), Size { height: 0, width: 0 });
    assert_eq!(Location::default(), Location { grapheme_index: 0, line_index: 0 });
}
