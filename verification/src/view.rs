//! The viewport: a document, a cursor in it, and the part of it that is on
//! screen. Every command leaves the cursor on a valid place of the document
//! and, unless the viewport is empty, inside the part that is shown.

use crate::buffer::{
    deletes_grapheme, document_text, document_with_char, document_with_deletion,
    document_with_newline, joins_next_line, text_lines, Buffer, FileWrite,
};
use crate::documentstatus::DocumentStatus;
use crate::editorcommand::{Direction, EditorCommand};
use crate::fileinfo::NO_NAME;
use crate::line::{columns_before, saturated, visible_text};
use crate::position::{Location, Position, Size};
use crate::unicode::{segmentation, views_of};
use vstd::prelude::*;
use vstd::view::View as _;

verus! {

/// The number of clusters in line `line_index` of `document`; zero where the
/// document has no such line.
pub open spec fn line_length(document: Seq<Seq<Seq<char>>>, line_index: int) -> nat {
    if 0 <= line_index < document.len() {
        document[line_index].len()
    } else {
        0
    }
}

/// Whether `location` is a place of `document`: on one of its lines or on the
/// line after the last, and not beyond the end of that line.
pub open spec fn valid_location(document: Seq<Seq<Seq<char>>>, location: Location) -> bool {
    &&& location.line_index <= document.len()
    &&& location.grapheme_index <= line_length(document, location.line_index as int)
}

/// The smaller of `index` and `limit`.
pub open spec fn clamped(index: usize, limit: nat) -> usize {
    if index <= limit {
        index
    } else {
        limit as usize
    }
}

/// `location` moved back into `document`: first onto the nearest line, then
/// onto the nearest place of that line.
pub open spec fn snapped(document: Seq<Seq<Seq<char>>>, location: Location) -> Location {
    let line_index = clamped(location.line_index, document.len());
    Location {
        line_index,
        grapheme_index: clamped(location.grapheme_index, line_length(document, line_index as int)),
    }
}

/// Where a move in `direction` leads from `location` before it is snapped
/// back into the document. `rows` is the height of the viewport: a page is one
/// row less.
pub open spec fn stepped(
    document: Seq<Seq<Seq<char>>>,
    location: Location,
    direction: Direction,
    rows: usize,
) -> Location {
    let line_index = location.line_index;
    let grapheme_index = location.grapheme_index;
    let page = if rows > 0 { (rows - 1) as usize } else { 0 };
    match direction {
        Direction::Up => Location { line_index: saturated(line_index - 1), ..location },
        Direction::Down => Location { line_index: saturated(line_index + 1), ..location },
        Direction::PageUp => Location { line_index: saturated(line_index - page), ..location },
        Direction::PageDown => Location { line_index: saturated(line_index + page), ..location },
        Direction::Home => Location { grapheme_index: 0, ..location },
        Direction::End => Location {
            grapheme_index: line_length(document, line_index as int) as usize,
            ..location
        },
        Direction::Left => if grapheme_index > 0 {
            Location { grapheme_index: (grapheme_index - 1) as usize, ..location }
        } else if line_index > 0 {
            Location {
                line_index: (line_index - 1) as usize,
                grapheme_index: line_length(document, line_index - 1) as usize,
            }
        } else {
            location
        },
        Direction::Right => if grapheme_index < line_length(document, line_index as int) {
            Location { grapheme_index: (grapheme_index + 1) as usize, ..location }
        } else if line_index + 1 < document.len() {
            Location { line_index: (line_index + 1) as usize, grapheme_index: 0 }
        } else {
            location
        },
    }
}

/// Where the cursor at `location` stands, in rows and columns of the document:
/// the row is the line, the column the width of what precedes it in the line.
pub open spec fn cursor_position(document: Seq<Seq<Seq<char>>>, location: Location) -> Position {
    let line_index = location.line_index as int;
    Position {
        x: if line_index < document.len() {
            saturated(columns_before(document[line_index], location.grapheme_index as int) as int)
        } else {
            0
        },
        y: location.line_index,
    }
}

/// The scroll offset on one axis after it has followed the cursor to `to`,
/// `extent` cells being shown: the offset nearest to `offset` that shows `to`.
pub open spec fn scrolled_axis(offset: usize, to: usize, extent: usize) -> usize {
    if to < offset {
        to
    } else if to >= saturated(offset + extent) {
        saturated(saturated(to - extent) + 1)
    } else {
        offset
    }
}

/// Whether `position` lies in the `size` cells shown from `scroll` on.
pub open spec fn in_view(scroll: Position, size: Size, position: Position) -> bool {
    &&& scroll.x <= position.x < scroll.x + size.width
    &&& scroll.y <= position.y < scroll.y + size.height
}

/// Name of the editor, shown in the banner of an empty document.
pub const NAME: &'static str = "editor_core";

/// Version of the editor, shown in the banner of an empty document.
pub const VERSION: &'static str = "0.1.0";

/// Drawn on a row below the end of the document.
pub const FILLER_MARK: char = '~';

/// The title shown in the banner.
pub open spec fn banner_title() -> Seq<char> {
    NAME@ + " editor -- version "@ + VERSION@
}

/// The banner for a viewport `width` columns wide: the filler mark, then the
/// title with as many spaces in front as behind. A viewport too narrow for
/// the title shows the filler mark alone, one without columns a space.
pub open spec fn welcome_message(width: usize) -> Seq<char> {
    let title = banner_title();
    if width == 0 {
        seq![' ']
    } else if width <= title.len() {
        seq![FILLER_MARK]
    } else {
        seq![FILLER_MARK] + Seq::new(((width - title.len() - 1) / 2) as nat, |i: int| ' ') + title
    }
}

/// A state whose cursor is on a place of the document and, in a viewport that
/// has cells, in view.
pub open spec fn settled(state: ViewState) -> bool {
    &&& state.cursor_valid()
    &&& state.size.height > 0 && state.size.width > 0 ==> state.cursor_visible()
}

/// Whether `command` ends with the cursor put on the nearest place of the
/// document and the viewport brought after it, whatever the state before.
pub open spec fn settles(command: EditorCommand) -> bool {
    command is Move || command is PrintChar || command is Tab || command is Enter
        || command is Delete
}

/// All that can be observed of a view.
pub struct ViewState {
    /// The lines of the document, each as its grapheme clusters.
    pub document: Seq<Seq<Seq<char>>>,
    /// Whether the document was changed since it was read or written.
    pub modified: bool,
    /// The path of the document's file, if it has one.
    pub path: Option<Seq<char>>,
    /// Whether the screen is out of date.
    pub needs_redraw: bool,
    /// The size of the viewport.
    pub size: Size,
    /// Where the cursor is in the document.
    pub location: Location,
    /// The document position shown in the top left corner of the viewport.
    pub scroll: Position,
}

impl ViewState {
    /// The state of a fresh view `size` cells large: the empty document,
    /// unchanged and without a file, with the cursor and the viewport at its
    /// start and a screen that is out of date.
    pub open spec fn fresh(size: Size) -> ViewState {
        ViewState {
            document: Seq::empty(),
            modified: false,
            path: None,
            needs_redraw: true,
            size,
            location: Location { grapheme_index: 0, line_index: 0 },
            scroll: Position { x: 0, y: 0 },
        }
    }

    /// Where the cursor stands, in rows and columns of the document.
    pub open spec fn position(self) -> Position {
        cursor_position(self.document, self.location)
    }

    /// Whether the cursor is on a place of the document.
    pub open spec fn cursor_valid(self) -> bool {
        valid_location(self.document, self.location)
    }

    /// Whether the cursor is in the part of the document that is shown.
    pub open spec fn cursor_visible(self) -> bool {
        in_view(self.scroll, self.size, self.position())
    }

    /// The state after the viewport has followed the cursor. The screen is out
    /// of date afterwards if the viewport had to move.
    pub open spec fn scrolled_to_cursor(self) -> ViewState {
        let to = self.position();
        let scroll = Position {
            x: scrolled_axis(self.scroll.x, to.x, self.size.width),
            y: scrolled_axis(self.scroll.y, to.y, self.size.height),
        };
        ViewState { scroll, needs_redraw: self.needs_redraw || scroll != self.scroll, ..self }
    }

    /// The state after the cursor was put on the place of the document nearest
    /// to `location` and the viewport has followed it.
    pub open spec fn with_cursor(self, location: Location) -> ViewState {
        ViewState { location: snapped(self.document, location), ..self }.scrolled_to_cursor()
    }

    /// The state after a move in `direction`.
    pub open spec fn moved(self, direction: Direction) -> ViewState {
        self.with_cursor(stepped(self.document, self.location, direction, self.size.height))
    }

    /// The state after the viewport got the size `to`.
    pub open spec fn resized(self, to: Size) -> ViewState {
        ViewState { needs_redraw: true, ..ViewState { size: to, ..self }.scrolled_to_cursor() }
    }

    /// The state after `character` was typed. The cursor moves right if the
    /// line it is on got exactly one cluster longer, and stays where the
    /// character joined a cluster that was there before.
    pub open spec fn with_char(self, character: char) -> ViewState {
        let line_index = self.location.line_index as int;
        let document = document_with_char(self.document, character, self.location);
        let typed = ViewState {
            document,
            modified: self.modified || line_index <= self.document.len(),
            ..self
        };
        let grew = line_length(document, line_index) == line_length(self.document, line_index) + 1;
        let advanced = if grew {
            typed.moved(Direction::Right)
        } else {
            typed.with_cursor(self.location)
        };
        ViewState { needs_redraw: true, ..advanced }
    }

    /// The state after a line break was put at the cursor: the cursor is at
    /// the start of the new line.
    pub open spec fn with_newline(self) -> ViewState {
        let broken = ViewState {
            document: document_with_newline(self.document, self.location),
            modified: self.modified || self.location.line_index <= self.document.len(),
            ..self
        };
        ViewState { needs_redraw: true, ..broken.moved(Direction::Right) }
    }

    /// The state after a deletion at the cursor.
    pub open spec fn with_deletion(self) -> ViewState {
        let deleted = ViewState {
            document: document_with_deletion(self.document, self.location),
            modified: self.modified || deletes_grapheme(self.document, self.location)
                || joins_next_line(self.document, self.location),
            ..self
        };
        ViewState { needs_redraw: true, ..deleted.with_cursor(self.location) }
    }

    /// The state after a deletion in front of the cursor: a move to the left
    /// and a deletion there. At the start of the document nothing happens.
    pub open spec fn with_backspace(self) -> ViewState {
        if self.location.line_index != 0 || self.location.grapheme_index != 0 {
            self.moved(Direction::Left).with_deletion()
        } else {
            self
        }
    }

    /// The state after `contents`, the text of the file `file_name`, was taken
    /// as the document: one line for each line of the text, unchanged, with
    /// the cursor as near to where it was as the new document allows.
    pub open spec fn loaded(self, file_name: Seq<char>, contents: Seq<char>) -> ViewState {
        ViewState {
            needs_redraw: true,
            ..ViewState {
                document: text_lines(contents).map_values(|line: Seq<char>| segmentation(line)),
                modified: false,
                path: Some(file_name),
                ..self
            }.with_cursor(self.location)
        }
    }

    /// The state after `command`. Quitting and saving are up to the caller and
    /// change nothing here.
    pub open spec fn after(self, command: EditorCommand) -> ViewState {
        match command {
            EditorCommand::Resize(size) => self.resized(size),
            EditorCommand::Move(direction) => self.moved(direction),
            EditorCommand::PrintChar(character) => self.with_char(character),
            EditorCommand::Tab => self.with_char('\t'),
            EditorCommand::Enter => self.with_newline(),
            EditorCommand::Delete => self.with_deletion(),
            EditorCommand::Backspace => self.with_backspace(),
            EditorCommand::Quit | EditorCommand::Nothing | EditorCommand::Save => self,
        }
    }

    /// Whether a call of `render` paints: the screen is out of date and the
    /// viewport has cells.
    pub open spec fn paints(self) -> bool {
        self.needs_redraw && self.size.height > 0 && self.size.width > 0
    }

    /// What is drawn on row `row` of the viewport: the part in view of the
    /// line shown there; on a row below the document the filler mark, or, if
    /// the document is empty and the row is a third of the way down, the
    /// banner.
    pub open spec fn row_text(self, row: int) -> Seq<char> {
        let line_index = self.scroll.y + row;
        if line_index < self.document.len() {
            visible_text(
                self.document[line_index],
                self.scroll.x as int,
                saturated(self.scroll.x + self.size.width) as int,
            )
        } else if row == self.size.height / 3 && self.document.len() == 0 {
            welcome_message(self.size.width)
        } else {
            seq![FILLER_MARK]
        }
    }

    /// What is drawn in the viewport, row by row from the top.
    pub open spec fn drawing(self) -> Seq<Seq<char>> {
        Seq::new(self.size.height as nat, |row: int| self.row_text(row))
    }

    /// The rows a call of `render` hands out: those of the viewport where it
    /// paints, none where it does not.
    pub open spec fn rendering(self) -> Seq<Seq<char>> {
        if self.paints() {
            self.drawing()
        } else {
            Seq::empty()
        }
    }
}

/// A document, the cursor in it and the viewport it is seen through.
pub struct View {
    buffer: Buffer,
    needs_redraw: bool,
    size: Size,
    text_location: Location,
    scroll_offset: Position,
}

impl vstd::view::View for View {
    type V = ViewState;

    /// All that can be observed of the view.
    closed spec fn view(&self) -> ViewState {
        ViewState {
            document: self.buffer.document(),
            modified: self.buffer.dirty,
            path: self.buffer.file_info.spec_path(),
            needs_redraw: self.needs_redraw,
            size: self.size,
            location: self.text_location,
            scroll: self.scroll_offset,
        }
    }
}

impl View {
    /// A view of the empty document for a terminal of the size
    /// `terminal_size`, of which the bottom `margin_bottom` rows are kept free.
    pub fn new(terminal_size: Size, margin_bottom: usize) -> (view: View)
        ensures
            view@ == ViewState::fresh(
                Size {
                    height: saturated(terminal_size.height - margin_bottom),
                    width: terminal_size.width,
                },
            ),
            settled(view@),
    {
        View {
            buffer: Buffer::default(),
            needs_redraw: true,
            size: Size {
                width: terminal_size.width,
                height: terminal_size.height.saturating_sub(margin_bottom),
            },
            text_location: Location::default(),
            scroll_offset: Position::default(),
        }
    }

    /// Where the cursor is in the document.
    pub fn text_location(&self) -> (location: Location)
        ensures
            location == self@.location,
    {
        self.text_location
    }

    /// The document position shown in the top left corner of the viewport.
    pub fn scroll_offset(&self) -> (scroll: Position)
        ensures
            scroll == self@.scroll,
    {
        self.scroll_offset
    }

    /// The size of the viewport.
    pub fn size(&self) -> (size: Size)
        ensures
            size == self@.size,
    {
        self.size
    }

    /// Whether the screen is out of date.
    pub fn needs_redraw(&self) -> (needed: bool)
        ensures
            needed == self@.needs_redraw,
    {
        self.needs_redraw
    }

    /// The document.
    pub fn buffer(&self) -> (buffer: &Buffer)
        ensures
            buffer.document() == self@.document,
            buffer.dirty == self@.modified,
            buffer.file_info.spec_path() == self@.path,
    {
        &self.buffer
    }

    /// The number of clusters in line `line_index`, zero where there is no
    /// such line.
    fn line_length(&self, line_index: usize) -> (length: usize)
        ensures
            length == line_length(self@.document, line_index as int),
    {
        if line_index < self.buffer.lines.len() {
            self.buffer.lines[line_index].grapheme_count()
        } else {
            0
        }
    }

    /// Where the cursor stands, in rows and columns of the document.
    fn text_location_to_position(&self) -> (position: Position)
        ensures
            position == self@.position(),
    {
        let row = self.text_location.line_index;
        let col = if row < self.buffer.lines.len() {
            self.buffer.lines[row].width_until(self.text_location.grapheme_index)
        } else {
            0
        };
        Position { x: col, y: row }
    }

    /// Where the cursor is on the screen: its position in the document as
    /// seen from the top left corner of the viewport.
    pub fn caret_position(&self) -> (position: Position)
        ensures
            position == self@.position().spec_saturating_sub(self@.scroll),
    {
        self.text_location_to_position().saturating_sub(self.scroll_offset)
    }

    /// Lets the viewport follow the cursor to row `to`.
    fn scroll_vertically(&mut self, to: usize)
        ensures
            final(self)@ == ({
                let y = scrolled_axis(old(self)@.scroll.y, to, old(self)@.size.height);
                ViewState {
                    scroll: Position { y, ..old(self)@.scroll },
                    needs_redraw: old(self)@.needs_redraw || y != old(self)@.scroll.y,
                    ..old(self)@
                }
            }),
    {
        let height = self.size.height;
        let offset_changed = if to < self.scroll_offset.y {
            self.scroll_offset.y = to;
            true
        } else if to >= self.scroll_offset.y.saturating_add(height) {
            let y = to.saturating_sub(height).saturating_add(1);
            let changed = y != self.scroll_offset.y;
            self.scroll_offset.y = y;
            changed
        } else {
            false
        };
        self.needs_redraw = self.needs_redraw || offset_changed;
    }

    /// Lets the viewport follow the cursor to column `to`.
    fn scroll_horizontally(&mut self, to: usize)
        ensures
            final(self)@ == ({
                let x = scrolled_axis(old(self)@.scroll.x, to, old(self)@.size.width);
                ViewState {
                    scroll: Position { x, ..old(self)@.scroll },
                    needs_redraw: old(self)@.needs_redraw || x != old(self)@.scroll.x,
                    ..old(self)@
                }
            }),
    {
        let width = self.size.width;
        let offset_changed = if to < self.scroll_offset.x {
            self.scroll_offset.x = to;
            true
        } else if to >= self.scroll_offset.x.saturating_add(width) {
            let x = to.saturating_sub(width).saturating_add(1);
            let changed = x != self.scroll_offset.x;
            self.scroll_offset.x = x;
            changed
        } else {
            false
        };
        self.needs_redraw = self.needs_redraw || offset_changed;
    }

    /// Lets the viewport follow the cursor.
    fn scroll_text_location_into_view(&mut self)
        ensures
            final(self)@ == old(self)@.scrolled_to_cursor(),
            final(self)@.size.height > 0 && final(self)@.size.width > 0
                ==> final(self)@.cursor_visible(),
    {
        let position = self.text_location_to_position();
        self.scroll_vertically(position.y);
        self.scroll_horizontally(position.x);
    }

    /// Moves the cursor `step` lines up, not beyond the first.
    fn move_up(&mut self, step: usize)
        ensures
            final(self)@ == (ViewState {
                location: Location {
                    line_index: saturated(old(self)@.location.line_index - step),
                    ..old(self)@.location
                },
                ..old(self)@
            }),
    {
        self.text_location.line_index = self.text_location.line_index.saturating_sub(step);
    }

    /// Moves the cursor `step` lines down.
    fn move_down(&mut self, step: usize)
        ensures
            final(self)@ == (ViewState {
                location: Location {
                    line_index: saturated(old(self)@.location.line_index + step),
                    ..old(self)@.location
                },
                ..old(self)@
            }),
    {
        self.text_location.line_index = self.text_location.line_index.saturating_add(step);
    }

    /// Moves the cursor to the start of its line.
    fn move_to_start_of_line(&mut self)
        ensures
            final(self)@ == (ViewState {
                location: Location { grapheme_index: 0, ..old(self)@.location },
                ..old(self)@
            }),
    {
        self.text_location.grapheme_index = 0;
    }

    /// Moves the cursor to the end of its line.
    fn move_to_end_of_line(&mut self)
        ensures
            final(self)@ == (ViewState {
                location: Location {
                    grapheme_index: line_length(
                        old(self)@.document,
                        old(self)@.location.line_index as int,
                    ) as usize,
                    ..old(self)@.location
                },
                ..old(self)@
            }),
    {
        self.text_location.grapheme_index = self.line_length(self.text_location.line_index);
    }

    /// Moves the cursor one cluster to the right, or from the end of a line
    /// to the start of the next.
    fn move_right(&mut self)
        ensures
            final(self)@ == (ViewState {
                location: stepped(
                    old(self)@.document,
                    old(self)@.location,
                    Direction::Right,
                    old(self)@.size.height,
                ),
                ..old(self)@
            }),
    {
        let line_width = self.line_length(self.text_location.line_index);
        if self.text_location.grapheme_index < line_width {
            self.text_location.grapheme_index += 1;
        } else if self.text_location.line_index.saturating_add(1) < self.buffer.height() {
            self.move_to_start_of_line();
            self.move_down(1);
        }
    }

    /// Moves the cursor one cluster to the left, or from the start of a
    /// line to the end of the one before.
    fn move_left(&mut self)
        ensures
            final(self)@ == (ViewState {
                location: stepped(
                    old(self)@.document,
                    old(self)@.location,
                    Direction::Left,
                    old(self)@.size.height,
                ),
                ..old(self)@
            }),
    {
        if self.text_location.grapheme_index > 0 {
            self.text_location.grapheme_index -= 1;
        } else if self.text_location.line_index > 0 {
            self.move_up(1);
            self.move_to_end_of_line();
        }
    }

    /// Puts the cursor on the nearest line the document has a place on.
    fn snap_to_valid_line(&mut self)
        ensures
            final(self)@ == (ViewState {
                location: Location {
                    line_index: clamped(old(self)@.location.line_index, old(self)@.document.len()),
                    ..old(self)@.location
                },
                ..old(self)@
            }),
    {
        let height = self.buffer.height();
        if self.text_location.line_index > height {
            self.text_location.line_index = height;
        }
    }

    /// Puts the cursor on the nearest place of the line it is on.
    fn snap_to_valid_grapheme(&mut self)
        ensures
            final(self)@ == (ViewState {
                location: Location {
                    grapheme_index: clamped(
                        old(self)@.location.grapheme_index,
                        line_length(old(self)@.document, old(self)@.location.line_index as int),
                    ),
                    ..old(self)@.location
                },
                ..old(self)@
            }),
    {
        let length = self.line_length(self.text_location.line_index);
        if self.text_location.grapheme_index > length {
            self.text_location.grapheme_index = length;
        }
    }

    /// Puts the cursor on the nearest place of the document and lets the
    /// viewport follow it.
    fn settle(&mut self)
        ensures
            final(self)@ == old(self)@.with_cursor(old(self)@.location),
            settled(final(self)@),
    {
        self.snap_to_valid_line();
        self.snap_to_valid_grapheme();
        self.scroll_text_location_into_view();
    }

    /// Moves the cursor in `direction`, puts it on the nearest place of the
    /// document and lets the viewport follow it.
    fn move_text_location(&mut self, direction: Direction)
        ensures
            final(self)@ == old(self)@.moved(direction),
            settled(final(self)@),
    {
        let height = self.size.height;
        match direction {
            Direction::Up => self.move_up(1),
            Direction::Down => self.move_down(1),
            Direction::Left => self.move_left(),
            Direction::Right => self.move_right(),
            Direction::PageUp => self.move_up(height.saturating_sub(1)),
            Direction::PageDown => self.move_down(height.saturating_sub(1)),
            Direction::Home => self.move_to_start_of_line(),
            Direction::End => self.move_to_end_of_line(),
        }
        self.settle();
    }

    /// Types `character` at the cursor.
    fn insert_char(&mut self, character: char)
        ensures
            final(self)@ == old(self)@.with_char(character),
            settled(final(self)@),
    {
        let old_len = self.line_length(self.text_location.line_index);
        self.buffer.insert_char(character, self.text_location);
        let new_len = self.line_length(self.text_location.line_index);
        if old_len < new_len && new_len - old_len == 1 {
            self.move_text_location(Direction::Right);
        } else {
            self.settle();
        }
        self.needs_redraw = true;
    }

    /// Breaks the line at the cursor.
    fn insert_newline(&mut self)
        ensures
            final(self)@ == old(self)@.with_newline(),
            settled(final(self)@),
    {
        self.buffer.insert_newline(self.text_location);
        self.move_text_location(Direction::Right);
        self.needs_redraw = true;
    }

    /// Deletes at the cursor.
    fn delete(&mut self)
        ensures
            final(self)@ == old(self)@.with_deletion(),
            settled(final(self)@),
    {
        self.buffer.delete(self.text_location);
        self.settle();
        self.needs_redraw = true;
    }

    /// Deletes in front of the cursor.
    fn backspace(&mut self)
        ensures
            final(self)@ == old(self)@.with_backspace(),
    {
        if self.text_location.line_index != 0 || self.text_location.grapheme_index != 0 {
            self.move_text_location(Direction::Left);
            self.delete();
        }
    }

    /// Carries out `command`. Afterwards the cursor is on a place of the
    /// document, and in view unless the viewport has no cells, provided it was
    /// so before or the command settles it.
    pub fn handle_command(&mut self, command: EditorCommand)
        ensures
            final(self)@ == old(self)@.after(command),
            settles(command) || old(self)@.cursor_valid() ==> final(self)@.cursor_valid(),
            final(self)@.size.height > 0 && final(self)@.size.width > 0 && (settles(command)
                || command is Resize || old(self)@.cursor_visible())
                ==> final(self)@.cursor_visible(),
    {
        match command {
            EditorCommand::Resize(size) => self.resize(size),
            EditorCommand::Move(direction) => self.move_text_location(direction),
            EditorCommand::Quit => {},
            EditorCommand::Nothing => {},
            EditorCommand::PrintChar(character) => self.insert_char(character),
            EditorCommand::Delete => self.delete(),
            EditorCommand::Backspace => self.backspace(),
            EditorCommand::Tab => self.insert_char('\t'),
            EditorCommand::Enter => self.insert_newline(),
            EditorCommand::Save => {},
        }
    }

    /// The banner for a viewport `width` columns wide. It never takes up more
    /// than `width` columns, unless there are none.
    fn build_welcome_message(width: usize) -> (message: String)
        ensures
            message@ == welcome_message(width),
            width > 0 ==> message@.len() <= width,
    {
        let mut message = String::new();
        if width == 0 {
            message.push(' ');
            return message;
        }
        let mut title = String::new();
        title.append(NAME);
        title.append(" editor -- version ");
        title.append(VERSION);
        let len = title.as_str().unicode_len();
        message.push(FILLER_MARK);
        if width <= len {
            return message;
        }
        let padding = (width - len - 1) / 2;
        let mut i: usize = 0;
        while i < padding
            invariant
                i <= padding,
                message@ == seq![FILLER_MARK] + Seq::new(i as nat, |i: int| ' '),
            decreases padding - i,
        {
            message.push(' ');
            i = i + 1;
        }
        message.append(title.as_str());
        message
    }

    /// The text of row `row` of the viewport.
    fn render_row(&self, row: usize) -> (text: String)
        requires
            row < self@.size.height,
        ensures
            text@ == self@.row_text(row as int),
    {
        let height = self.size.height;
        let width = self.size.width;
        let vertical_center = height / 3;
        let line_index = row.saturating_add(self.scroll_offset.y);
        if line_index < self.buffer.lines.len() {
            let left = self.scroll_offset.x;
            let right = self.scroll_offset.x.saturating_add(width);
            self.buffer.lines[line_index].get_visible_graphemes(left..right)
        } else if row == vertical_center && self.buffer.is_empty() {
            Self::build_welcome_message(width)
        } else {
            let mut filler = String::new();
            filler.push(FILLER_MARK);
            filler
        }
    }

    /// What is to be drawn in the viewport, row by row from the top.
    pub fn draw(&self) -> (rows: Vec<String>)
        ensures
            views_of(rows@) == self@.drawing(),
    {
        let height = self.size.height;
        let mut rows: Vec<String> = Vec::new();
        let mut row: usize = 0;
        while row < height
            invariant
                row <= height == self@.size.height,
                rows@.len() == row,
                forall|r: int| 0 <= r < row ==> (#[trigger] rows@[r])@ == self@.row_text(r),
            decreases height - row,
        {
            rows.push(self.render_row(row));
            row = row + 1;
        }
        rows
    }

    /// Hands out what is to be drawn, row by row from the top of the
    /// viewport, and takes the screen to be up to date afterwards. Hands out
    /// nothing and changes nothing where the screen is up to date already or
    /// the viewport has no cells.
    pub fn render(&mut self) -> (rows: Vec<String>)
        ensures
            views_of(rows@) == old(self)@.rendering(),
            final(self)@ == (ViewState {
                needs_redraw: old(self)@.needs_redraw && !old(self)@.paints(),
                ..old(self)@
            }),
    {
        if !self.needs_redraw || self.size.height == 0 || self.size.width == 0 {
            return Vec::new();
        }
        let rows = self.draw();
        self.set_needs_redraw(false);
        rows
    }

    /// Marks the screen as out of date, or as up to date.
    pub fn set_needs_redraw(&mut self, value: bool)
        ensures
            final(self)@ == (ViewState { needs_redraw: value, ..old(self)@ }),
    {
        self.needs_redraw = value;
    }

    /// Gives the viewport the size `to` and lets it follow the cursor.
    pub fn set_size(&mut self, to: Size)
        ensures
            final(self)@ == (ViewState { size: to, ..old(self)@ }).scrolled_to_cursor(),
            to.height > 0 && to.width > 0 ==> final(self)@.cursor_visible(),
            old(self)@.cursor_valid() ==> final(self)@.cursor_valid(),
    {
        self.size = to;
        self.scroll_text_location_into_view();
    }

    /// What a status line shows of the document. The name is that of the
    /// document's file, or `NO_NAME` where it has none.
    pub fn get_status(&self) -> (status: DocumentStatus)
        ensures
            status.total_lines == self@.document.len(),
            status.current_line_index == self@.location.line_index,
            status.is_modified == self@.modified,
            self@.path is None ==> status.file_name@ == NO_NAME@,
    {
        DocumentStatus {
            total_lines: self.buffer.height(),
            current_line_index: self.text_location.line_index,
            file_name: self.buffer.file_info.to_string(),
            is_modified: self.buffer.dirty,
        }
    }

    /// Takes `contents`, the text of the file `file_name`, as the document.
    /// The cursor stays as near to where it was as the new document allows.
    pub fn load(&mut self, file_name: &str, contents: &str)
        ensures
            final(self)@ == old(self)@.loaded(file_name@, contents@),
            settled(final(self)@),
    {
        self.buffer = Buffer::load(file_name, contents);
        self.settle();
        self.needs_redraw = true;
    }

    /// What is to be written where the document is saved: its lines, with a
    /// line feed between each two, to its file. `None` where the document has
    /// no file.
    pub fn save_request(&self) -> (request: Option<FileWrite>)
        ensures
            request is Some == self@.path is Some,
            request is Some ==> request.unwrap().path@ == self@.path.unwrap()
                && request.unwrap().contents@ == document_text(self@.document),
    {
        self.buffer.save_request()
    }

    /// Records that the document was written to its file.
    pub fn mark_saved(&mut self)
        ensures
            final(self)@ == (ViewState { modified: false, ..old(self)@ }),
    {
        self.buffer.mark_saved();
    }

    /// Gives the viewport the size `to` and lets it follow the cursor. The
    /// screen is out of date afterwards.
    pub fn resize(&mut self, to: Size)
        ensures
            final(self)@ == old(self)@.resized(to),
            to.height > 0 && to.width > 0 ==> final(self)@.cursor_visible(),
            old(self)@.cursor_valid() ==> final(self)@.cursor_valid(),
    {
        self.set_size(to);
        self.set_needs_redraw(true);
    }
}

/// The number of places of `document` in front of line `line`: each line in
/// front of it has one place for each of its clusters and one at its end.
pub open spec fn places_before(document: Seq<Seq<Seq<char>>>, line: int) -> nat
    decreases line,
{
    if line <= 0 {
        0
    } else {
        places_before(document, line - 1) + line_length(document, line - 1) + 1
    }
}

/// The number of places of `document` in front of `location`, in reading order.
pub open spec fn rank(document: Seq<Seq<Seq<char>>>, location: Location) -> nat {
    places_before(document, location.line_index as int) + location.grapheme_index as nat
}

/// Where the cursor is after `steps` moves to the right from the start of the
/// document.
pub open spec fn walk_right(document: Seq<Seq<Seq<char>>>, steps: nat) -> Location
    decreases steps,
{
    if steps == 0 {
        Location { grapheme_index: 0, line_index: 0 }
    } else {
        snapped(
            document,
            stepped(document, walk_right(document, (steps - 1) as nat), Direction::Right, 0),
        )
    }
}

/// Whether the lines of `document` and each of their clusters can be counted
/// in a `usize`, as those of every document in memory can.
pub open spec fn countable(document: Seq<Seq<Seq<char>>>) -> bool {
    &&& document.len() <= usize::MAX
    &&& forall|i: int| 0 <= i < document.len() ==> (#[trigger] document[i]).len() <= usize::MAX
}

/// Whether `location` is on a line of `document`, at a cluster or at the end.
pub open spec fn on_a_line(document: Seq<Seq<Seq<char>>>, location: Location) -> bool {
    &&& location.line_index < document.len()
    &&& location.grapheme_index <= document[location.line_index as int].len()
}

/// A later line has no fewer places in front of it.
proof fn lemma_places_before_grows(document: Seq<Seq<Seq<char>>>, i: int, j: int)
    requires
        0 <= i <= j,
    ensures
        places_before(document, i) <= places_before(document, j),
    decreases j,
{
    if i < j {
        lemma_places_before_grows(document, i, j - 1);
    }
}

/// Two places on lines of a document that have as many places in front of
/// them are one place.
proof fn lemma_rank_tells_places_apart(document: Seq<Seq<Seq<char>>>, a: Location, b: Location)
    requires
        on_a_line(document, a),
        on_a_line(document, b),
        rank(document, a) == rank(document, b),
    ensures
        a == b,
{
    if a.line_index < b.line_index {
        lemma_places_before_grows(document, a.line_index + 1, b.line_index as int);
    } else if b.line_index < a.line_index {
        lemma_places_before_grows(document, b.line_index + 1, a.line_index as int);
    }
}

/// A walk to the right passes the places of the document one by one in
/// reading order and stops at the end of the last line: it never leaves the
/// lines of the document.
pub proof fn lemma_walk_right_counts(document: Seq<Seq<Seq<char>>>, steps: nat)
    requires
        countable(document),
        document.len() > 0,
    ensures
        on_a_line(document, walk_right(document, steps)),
        steps < places_before(document, document.len() as int) ==> rank(
            document,
            walk_right(document, steps),
        ) == steps,
        steps >= places_before(document, document.len() as int) ==> rank(
            document,
            walk_right(document, steps),
        ) == places_before(document, document.len() as int) - 1,
    decreases steps,
{
    let places = places_before(document, document.len() as int);
    lemma_places_before_grows(document, 1, document.len() as int);
    if steps > 0 {
        lemma_walk_right_counts(document, (steps - 1) as nat);
        let from = walk_right(document, (steps - 1) as nat);
        let last = Location {
            line_index: (document.len() - 1) as usize,
            grapheme_index: document.last().len() as usize,
        };
        lemma_places_before_grows(document, from.line_index + 1, document.len() as int);
        if rank(document, from) == places - 1 {
            lemma_rank_tells_places_apart(document, from, last);
        }
    }
}

/// Moving right again and again from the start of the document comes to every
/// cluster of every line exactly once, in reading order: to a cluster with
/// `n` places in front of it after `n` moves and at no other time.
pub proof fn lemma_walk_right_visits_each_grapheme_once(
    document: Seq<Seq<Seq<char>>>,
    line_index: usize,
    grapheme_index: usize,
    steps: nat,
)
    requires
        countable(document),
        line_index < document.len(),
        grapheme_index < document[line_index as int].len(),
    ensures
        walk_right(document, steps) == (Location { grapheme_index, line_index }) <==> steps == rank(
            document,
            Location { grapheme_index, line_index },
        ),
{
    let target = Location { grapheme_index, line_index };
    lemma_walk_right_counts(document, steps);
    lemma_places_before_grows(document, line_index + 1, document.len() as int);
    if steps == rank(document, target) {
        lemma_rank_tells_places_apart(document, walk_right(document, steps), target);
    }
}

/// A move to the right takes the cursor where one more step of the walk does.
pub proof fn lemma_moved_right_is_a_step(state: ViewState, steps: nat)
    requires
        state.location == walk_right(state.document, steps),
    ensures
        state.moved(Direction::Right).location == walk_right(state.document, steps + 1),
        state.moved(Direction::Right).document == state.document,
{
}

/// Once the cursor was put on the nearest place of the document and the
/// viewport has followed it, the cursor is on a place of the document and, in
/// a viewport that has cells, in view.
pub proof fn lemma_with_cursor_settles(state: ViewState, location: Location)
    ensures
        settled(state.with_cursor(location)),
{
}

/// After any move and after any resize the cursor is in view, unless the
/// viewport has no cells.
pub proof fn lemma_cursor_in_view_after_move_or_resize(
    state: ViewState,
    direction: Direction,
    to: Size,
)
    ensures
        state.size.height > 0 && state.size.width > 0 ==> state.moved(direction).cursor_visible(),
        to.height > 0 && to.width > 0 ==> state.resized(to).cursor_visible(),
{
}

/// Typing a character leaves the cursor settled.
proof fn lemma_with_char_settles(state: ViewState, character: char)
    ensures
        settled(state.with_char(character)),
{
    let typed = ViewState {
        document: document_with_char(state.document, character, state.location),
        modified: state.modified || state.location.line_index <= state.document.len(),
        ..state
    };
    lemma_with_cursor_settles(typed, state.location);
    lemma_with_cursor_settles(
        typed,
        stepped(typed.document, typed.location, Direction::Right, typed.size.height),
    );
}

/// Breaking a line leaves the cursor settled.
proof fn lemma_with_newline_settles(state: ViewState)
    ensures
        settled(state.with_newline()),
{
    let broken = ViewState {
        document: document_with_newline(state.document, state.location),
        modified: state.modified || state.location.line_index <= state.document.len(),
        ..state
    };
    lemma_with_cursor_settles(
        broken,
        stepped(broken.document, broken.location, Direction::Right, broken.size.height),
    );
}

/// A deletion leaves the cursor settled.
proof fn lemma_with_deletion_settles(state: ViewState)
    ensures
        settled(state.with_deletion()),
{
    let deleted = ViewState {
        document: document_with_deletion(state.document, state.location),
        modified: state.modified || deletes_grapheme(state.document, state.location)
            || joins_next_line(state.document, state.location),
        ..state
    };
    lemma_with_cursor_settles(deleted, state.location);
}

/// Every command keeps the cursor on a place of the document, and in view
/// unless the viewport has no cells; a command that settles the cursor brings
/// it there whatever the state before.
pub proof fn lemma_after_command(state: ViewState, command: EditorCommand)
    ensures
        settles(command) || state.cursor_valid() ==> state.after(command).cursor_valid(),
        state.after(command).size.height > 0 && state.after(command).size.width > 0 && (settles(
            command,
        ) || command is Resize || state.cursor_visible()) ==> state.after(
            command,
        ).cursor_visible(),
{
    match command {
        EditorCommand::Resize(size) => {},
        EditorCommand::Move(direction) => {
            lemma_with_cursor_settles(
                state,
                stepped(state.document, state.location, direction, state.size.height),
            );
        },
        EditorCommand::PrintChar(character) => {
            lemma_with_char_settles(state, character);
        },
        EditorCommand::Tab => {
            lemma_with_char_settles(state, '\t');
        },
        EditorCommand::Enter => {
            lemma_with_newline_settles(state);
        },
        EditorCommand::Delete => {
            lemma_with_deletion_settles(state);
        },
        EditorCommand::Backspace => {
            if state.location.line_index != 0 || state.location.grapheme_index != 0 {
                lemma_with_deletion_settles(state.moved(Direction::Left));
            }
        },
        EditorCommand::Quit | EditorCommand::Nothing | EditorCommand::Save => {},
    }
}

} // verus!
