//! The prompt line: a prompt and a line of text typed after it.

use crate::editorcommand::Edit;
use crate::line::{columns_before, saturated, text_with_removal, visible_text, Line};
use crate::position::Size;
use crate::statusbar::byte_len;
use crate::unicode::segmentation;
use vstd::prelude::*;

verus! {

/// The clusters of the typed text after `command`: a character goes to its
/// end, a deletion backwards takes its last cluster, and nothing else changes
/// it.
pub open spec fn edited(value: Seq<Seq<char>>, command: Edit) -> Seq<Seq<char>> {
    match command {
        Edit::Insert(character) => segmentation(value.flatten() + seq![character]),
        Edit::DeleteBackward => segmentation(text_with_removal(value, value.len() - 1)),
        Edit::Delete | Edit::InsertNewline => value,
    }
}

/// What the prompt line shows in a bar `width` columns wide: the prompt and,
/// in the room left of it, the end of the typed text; nothing where that does
/// not fit the bar.
pub open spec fn prompt_text(prompt: Seq<char>, value: Seq<Seq<char>>, width: usize) -> Seq<char> {
    let room = if width >= byte_len(prompt) {
        width - byte_len(prompt)
    } else {
        0
    };
    let end = saturated(columns_before(value, value.len() as int) as int);
    let start = if end >= room {
        end - room
    } else {
        0
    };
    let line = prompt + visible_text(value, start, end as int);
    if byte_len(line) <= width {
        line
    } else {
        Seq::empty()
    }
}

/// The prompt line of the editor.
pub struct CommandBar {
    prompt: String,
    value: Line,
    needs_redraw: bool,
    size: Size,
}

impl CommandBar {
    /// The prompt.
    pub closed spec fn prompt(&self) -> Seq<char> {
        self.prompt@
    }

    /// The clusters of the text typed so far.
    pub closed spec fn typed(&self) -> Seq<Seq<char>> {
        self.value@
    }

    /// Whether the line on screen is out of date.
    pub closed spec fn redraw_pending(&self) -> bool {
        self.needs_redraw
    }

    /// The size of the line.
    pub closed spec fn extent(&self) -> Size {
        self.size
    }

    /// Applies `command` to the typed text. The line on screen is out of date
    /// afterwards.
    pub fn handle_edit_command(&mut self, command: Edit)
        ensures
            final(self).typed() == edited(old(self).typed(), command),
            final(self).redraw_pending(),
            final(self).prompt() == old(self).prompt(),
            final(self).extent() == old(self).extent(),
    {
        match command {
            Edit::Insert(character) => self.value.append_char(character),
            Edit::Delete | Edit::InsertNewline => {},
            Edit::DeleteBackward => self.value.delete_last(),
        }
        self.set_needs_redraw(true);
    }

    /// The column of the cursor: behind the prompt and the typed text, but
    /// not beyond the right edge.
    pub fn caret_position_col(&self) -> (column: usize)
        ensures
            column == ({
                let end = saturated(byte_len(self.prompt()) + self.typed().len());
                if end <= self.extent().width {
                    end
                } else {
                    self.extent().width
                }
            }),
    {
        let max_width = self.prompt.as_str().len().saturating_add(self.value.grapheme_count());
        if max_width <= self.size.width {
            max_width
        } else {
            self.size.width
        }
    }

    /// The text typed so far.
    pub fn value(&self) -> (text: String)
        ensures
            text@ == self.typed().flatten(),
    {
        self.value.to_string()
    }

    /// Takes `prompt` as the prompt.
    pub fn set_prompt(&mut self, prompt: &str)
        ensures
            final(self).prompt() == prompt@,
            final(self).typed() == old(self).typed(),
            final(self).redraw_pending() == old(self).redraw_pending(),
            final(self).extent() == old(self).extent(),
    {
        self.prompt = prompt.to_owned();
    }

    /// Marks the line on screen as out of date, or as up to date.
    pub fn set_needs_redraw(&mut self, value: bool)
        ensures
            final(self).redraw_pending() == value,
            final(self).prompt() == old(self).prompt(),
            final(self).typed() == old(self).typed(),
            final(self).extent() == old(self).extent(),
    {
        self.needs_redraw = value;
    }

    /// Whether the line on screen is out of date.
    pub fn needs_redraw(&self) -> (needed: bool)
        ensures
            needed == self.redraw_pending(),
    {
        self.needs_redraw
    }

    /// Gives the line the size `size`.
    pub fn set_size(&mut self, size: Size)
        ensures
            final(self).extent() == size,
            final(self).prompt() == old(self).prompt(),
            final(self).typed() == old(self).typed(),
            final(self).redraw_pending() == old(self).redraw_pending(),
    {
        self.size = size;
    }

    /// The text the line shows.
    pub fn draw(&self) -> (text: String)
        ensures
            text@ == prompt_text(self.prompt(), self.typed(), self.extent().width),
    {
        let area_for_value = self.size.width.saturating_sub(self.prompt.as_str().len());
        let value_end = self.value.width();
        let value_start = value_end.saturating_sub(area_for_value);
        let mut message = self.prompt.clone();
        let shown = self.value.get_visible_graphemes(value_start..value_end);
        message.append(shown.as_str());
        if message.as_str().len() <= self.size.width {
            message
        } else {
            String::new()
        }
    }
}

impl Default for CommandBar {
    /// A line without a size, a prompt or typed text that counts as up to
    /// date.
    fn default() -> (bar: CommandBar)
        ensures
            bar.prompt() == Seq::<char>::empty(),
            bar.typed() == Seq::<Seq<char>>::empty(),
            !bar.redraw_pending(),
            bar.extent() == (Size { height: 0, width: 0 }),
    {
        CommandBar {
            prompt: String::new(),
            value: Line::default(),
            needs_redraw: false,
            size: Size::default(),
        }
    }
}

} // verus!
