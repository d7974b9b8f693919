//! The commands the editing core understands.

use crate::position::Size;
use vstd::prelude::*;

verus! {

/// A way to move the cursor.
#[derive(Copy, Clone, Debug, PartialEq, Eq, Structural)]
pub enum Direction {
    PageUp,
    PageDown,
    Home,
    End,
    Up,
    Left,
    Right,
    Down,
}

/// What the user asks of the editor.
#[derive(Copy, Clone, Debug, PartialEq, Eq, Structural)]
pub enum EditorCommand {
    Move(Direction),
    Resize(Size),
    Quit,
    PrintChar(char),
    Nothing,
    Delete,
    Backspace,
    Tab,
    Enter,
    Save,
}

/// A change to a single line of text that is being typed.
#[derive(Copy, Clone, Debug, PartialEq, Eq, Structural)]
pub enum Edit {
    Insert(char),
    InsertNewline,
    Delete,
    DeleteBackward,
}

/// A key of the keyboard, as far as the editor tells keys apart.
#[derive(Copy, Clone, Debug, PartialEq, Eq, Structural)]
pub enum Key {
    Char(char),
    Up,
    Down,
    Left,
    Right,
    PageUp,
    PageDown,
    Home,
    End,
    Backspace,
    Delete,
    Tab,
    Enter,
    Other,
}

/// The modifier bits of a key that was struck alone.
pub const NO_MODIFIERS: u8 = 0;

/// The modifier bit of the shift key.
pub const SHIFT: u8 = 1;

/// The modifier bit of the control key.
pub const CONTROL: u8 = 2;

/// What the terminal reports.
#[derive(Copy, Clone, Debug, PartialEq, Eq, Structural)]
pub enum Event {
    /// A key with the bits of the modifiers held down with it. `pressed`
    /// tells a key going down from one that repeats or is let go.
    Key { code: Key, modifiers: u8, pressed: bool },
    /// The terminal has a new size, in columns and rows.
    Resize(u16, u16),
    /// Anything else.
    Other,
}

/// An event that stands for no command.
#[derive(Copy, Clone, Debug, PartialEq, Eq, Structural)]
pub struct EventNotSupported;

/// The command a key stands for. Control with `q` quits and control with `s`
/// saves; the keys that move the cursor or edit mean the same with any
/// modifier; a character types itself when struck alone or with shift. Every
/// other key stands for `Nothing`.
pub open spec fn command_for_key(code: Key, modifiers: u8) -> EditorCommand {
    match code {
        Key::Up => EditorCommand::Move(Direction::Up),
        Key::Down => EditorCommand::Move(Direction::Down),
        Key::Left => EditorCommand::Move(Direction::Left),
        Key::Right => EditorCommand::Move(Direction::Right),
        Key::PageDown => EditorCommand::Move(Direction::PageDown),
        Key::PageUp => EditorCommand::Move(Direction::PageUp),
        Key::Home => EditorCommand::Move(Direction::Home),
        Key::End => EditorCommand::Move(Direction::End),
        Key::Backspace => EditorCommand::Backspace,
        Key::Delete => EditorCommand::Delete,
        Key::Tab => EditorCommand::Tab,
        Key::Enter => EditorCommand::Enter,
        Key::Char(character) => if modifiers == CONTROL && character == 'q' {
            EditorCommand::Quit
        } else if modifiers == NO_MODIFIERS || modifiers == SHIFT {
            EditorCommand::PrintChar(character)
        } else if modifiers == CONTROL && character == 's' {
            EditorCommand::Save
        } else {
            EditorCommand::Nothing
        },
        Key::Other => EditorCommand::Nothing,
    }
}

/// The command an event stands for, if it stands for one: that of the key for
/// a key, a resize to the size reported for a resize.
pub open spec fn command_for(event: Event) -> Option<EditorCommand> {
    match event {
        Event::Key { code, modifiers, pressed } => Some(command_for_key(code, modifiers)),
        Event::Resize(columns, rows) => Some(
            EditorCommand::Resize(Size { height: rows as usize, width: columns as usize }),
        ),
        Event::Other => None,
    }
}

impl EditorCommand {
    /// The command `event` stands for, or `EventNotSupported` for an event
    /// that is neither a key nor a resize.
    pub fn try_from(event: Event) -> (command: Result<EditorCommand, EventNotSupported>)
        ensures
            command == match command_for(event) {
                Some(command) => Ok::<EditorCommand, EventNotSupported>(command),
                None => Err(EventNotSupported),
            },
    {
        match event {
            Event::Key { code, modifiers, pressed } => Ok(
                match code {
                    Key::Up => EditorCommand::Move(Direction::Up),
                    Key::Down => EditorCommand::Move(Direction::Down),
                    Key::Left => EditorCommand::Move(Direction::Left),
                    Key::Right => EditorCommand::Move(Direction::Right),
                    Key::PageDown => EditorCommand::Move(Direction::PageDown),
                    Key::PageUp => EditorCommand::Move(Direction::PageUp),
                    Key::Home => EditorCommand::Move(Direction::Home),
                    Key::End => EditorCommand::Move(Direction::End),
                    Key::Backspace => EditorCommand::Backspace,
                    Key::Delete => EditorCommand::Delete,
                    Key::Tab => EditorCommand::Tab,
                    Key::Enter => EditorCommand::Enter,
                    Key::Char(character) => {
                        if modifiers == CONTROL && character == 'q' {
                            EditorCommand::Quit
                        } else if modifiers == NO_MODIFIERS || modifiers == SHIFT {
                            EditorCommand::PrintChar(character)
                        } else if modifiers == CONTROL && character == 's' {
                            EditorCommand::Save
                        } else {
                            EditorCommand::Nothing
                        }
                    },
                    Key::Other => EditorCommand::Nothing,
                },
            ),
            Event::Resize(width_u16, height_u16) => {
                let height = height_u16 as usize;
                let width = width_u16 as usize;
                Ok(EditorCommand::Resize(Size { height, width }))
            },
            Event::Other => Err(EventNotSupported),
        }
    }
}

} // verus!
