//! The status line: the name of the document, its size and the cursor's line.

use crate::documentstatus::DocumentStatus;
use crate::position::Size;
use vstd::prelude::*;
use vstd::utf8::encode_utf8;

verus! {

/// The number of bytes `text` takes up as a string.
pub open spec fn byte_len(text: Seq<char>) -> usize {
    encode_utf8(text).len() as usize
}

/// `count` spaces.
pub open spec fn spaces(count: int) -> Seq<char> {
    Seq::new(
        if count > 0 {
            count as nat
        } else {
            0
        },
        |i: int| ' ',
    )
}

/// The left part of the status line: the name of the document, the number of
/// its lines and the marker for a changed document.
pub open spec fn status_beginning(status: DocumentStatus) -> Seq<char> {
    status.file_name@ + " - "@ + status.line_count() + seq![' '] + status.modified_indicator()
}

/// The whole status line for a bar `width` columns wide: the left part, then
/// the cursor's line pushed to the right edge by spaces. The room left of the
/// edge is reckoned in bytes of the left part.
pub open spec fn status_line(status: DocumentStatus, width: usize) -> Seq<char> {
    let beginning = status_beginning(status);
    let indicator = status.position_indicator();
    let room = if width >= byte_len(beginning) {
        width - byte_len(beginning)
    } else {
        0
    };
    beginning + spaces(room - indicator.len()) + indicator
}

/// What the status bar shows: the status line where it fits the bar, nothing
/// where it does not.
pub open spec fn status_text(status: DocumentStatus, width: usize) -> Seq<char> {
    let line = status_line(status, width);
    if byte_len(line) <= width {
        line
    } else {
        Seq::empty()
    }
}

/// The status line of the editor.
pub struct StatusBar {
    current_status: DocumentStatus,
    needs_redraw: bool,
    size: Size,
}

impl StatusBar {
    /// The status the bar shows.
    pub closed spec fn status(&self) -> DocumentStatus {
        self.current_status
    }

    /// Whether the bar on screen is out of date.
    pub closed spec fn redraw_pending(&self) -> bool {
        self.needs_redraw
    }

    /// The size of the bar.
    pub closed spec fn extent(&self) -> Size {
        self.size
    }

    /// Takes `new_status` as the status to show. The bar is out of date
    /// afterwards if it showed another status before.
    pub fn update_status(&mut self, new_status: DocumentStatus)
        ensures
            final(self).extent() == old(self).extent(),
            new_status.same_as(&old(self).status()) ==> final(self).status() == old(self).status()
                && final(self).redraw_pending() == old(self).redraw_pending(),
            !new_status.same_as(&old(self).status()) ==> final(self).status() == new_status
                && final(self).redraw_pending(),
    {
        if new_status != self.current_status {
            self.current_status = new_status;
            self.set_needs_redraw(true);
        }
    }

    /// Marks the bar on screen as out of date, or as up to date.
    pub fn set_needs_redraw(&mut self, value: bool)
        ensures
            final(self).redraw_pending() == value,
            final(self).status() == old(self).status(),
            final(self).extent() == old(self).extent(),
    {
        self.needs_redraw = value;
    }

    /// Whether the bar on screen is out of date.
    pub fn needs_redraw(&self) -> (needed: bool)
        ensures
            needed == self.redraw_pending(),
    {
        self.needs_redraw
    }

    /// Gives the bar the size `size`.
    pub fn set_size(&mut self, size: Size)
        ensures
            final(self).extent() == size,
            final(self).status() == old(self).status(),
            final(self).redraw_pending() == old(self).redraw_pending(),
    {
        self.size = size;
    }

    /// Gives the bar the size `size` and marks it as out of date.
    pub fn resize(&mut self, size: Size)
        ensures
            final(self).extent() == size,
            final(self).status() == old(self).status(),
            final(self).redraw_pending(),
    {
        self.set_size(size);
        self.set_needs_redraw(true);
    }

    /// The text the bar shows.
    pub fn draw(&self) -> (text: String)
        ensures
            text@ == status_text(self.status(), self.extent().width),
    {
        let line_count = self.current_status.line_count_to_string();
        let modified_indicator = self.current_status.modified_indicator_to_string();
        let mut status = self.current_status.file_name.clone();
        status.append(" - ");
        status.append(line_count.as_str());
        status.push(' ');
        status.append(modified_indicator.as_str());
        assert(status@ =~= status_beginning(self.current_status));
        let position_indicator = self.current_status.position_indicator_to_string();
        let remainder_len = self.size.width.saturating_sub(status.as_str().len());
        let mut filled = position_indicator.as_str().unicode_len();
        let ghost beginning = status@;
        let ghost indicator_len = filled as int;
        while filled < remainder_len
            invariant
                indicator_len <= filled,
                filled <= remainder_len || filled == indicator_len,
                status@ == beginning + spaces(filled - indicator_len),
            decreases remainder_len - filled,
        {
            status.push(' ');
            filled = filled + 1;
        }
        status.append(position_indicator.as_str());
        if status.as_str().len() <= self.size.width {
            status
        } else {
            String::new()
        }
    }

    /// The text to put on screen, if the bar there is out of date; the bar
    /// counts as up to date afterwards.
    pub fn render(&mut self) -> (text: Option<String>)
        ensures
            final(self).status() == old(self).status(),
            final(self).extent() == old(self).extent(),
            !final(self).redraw_pending(),
            old(self).redraw_pending() ==> text is Some && text.unwrap()@ == status_text(
                old(self).status(),
                old(self).extent().width,
            ),
            !old(self).redraw_pending() ==> text is None,
    {
        if self.needs_redraw() {
            let text = self.draw();
            self.set_needs_redraw(false);
            Some(text)
        } else {
            None
        }
    }
}

impl Default for StatusBar {
    /// A bar without a size that shows the status of an empty document and
    /// counts as up to date.
    fn default() -> (bar: StatusBar)
        ensures
            bar.status().total_lines == 0,
            bar.status().current_line_index == 0,
            !bar.status().is_modified,
            bar.status().file_name@ == Seq::<char>::empty(),
            !bar.redraw_pending(),
            bar.extent() == (Size { height: 0, width: 0 }),
    {
        StatusBar {
            current_status: DocumentStatus::default(),
            needs_redraw: false,
            size: Size::default(),
        }
    }
}

} // verus!
