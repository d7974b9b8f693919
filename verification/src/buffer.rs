//! The document: an ordered sequence of lines, with the file it belongs to and
//! a flag that tells whether it was changed since it was read or written.

use crate::fileinfo::FileInfo;
use crate::line::{text_with_insertion, text_with_removal, Line};
use crate::position::Location;
use crate::unicode::{chars_of, segmentation, views_of};
use vstd::prelude::*;

verus! {

/// The index of the first line feed in `text`, or its length where it has none.
pub open spec fn line_end(text: Seq<char>) -> int
    decreases text.len(),
{
    if text.len() == 0 || text[0] == '\n' {
        0
    } else {
        1 + line_end(text.drop_first())
    }
}

/// `line` without the carriage return it ends in, if it ends in one.
pub open spec fn without_carriage_return(line: Seq<char>) -> Seq<char> {
    if line.len() > 0 && line.last() == '\r' {
        line.drop_last()
    } else {
        line
    }
}

/// The lines of `text`. A line ends at a line feed or at a carriage return
/// followed by a line feed, neither of which belongs to it, or at the end of
/// the text. Nothing follows the last line ending, so a text that ends in one
/// has no empty line after it, and the empty text has no lines at all. A
/// carriage return at the very end of the text stays in its line.
pub open spec fn text_lines(text: Seq<char>) -> Seq<Seq<char>>
    decreases text.len(),
{
    let end = line_end(text);
    if text.len() == 0 {
        Seq::empty()
    } else if 0 <= end < text.len() {
        seq![without_carriage_return(text.take(end))] + text_lines(text.skip(end + 1))
    } else {
        seq![text]
    }
}

/// `lines` with a line feed between each two of them.
pub open spec fn joined_lines(lines: Seq<Seq<char>>) -> Seq<char>
    decreases lines.len(),
{
    if lines.len() == 0 {
        Seq::empty()
    } else if lines.len() == 1 {
        lines[0]
    } else {
        joined_lines(lines.drop_last()) + seq!['\n'] + lines.last()
    }
}

/// The text of `document`: the texts of its lines with a line feed between
/// each two.
pub open spec fn document_text(document: Seq<Seq<Seq<char>>>) -> Seq<char> {
    joined_lines(document.map_values(|line: Seq<Seq<char>>| line.flatten()))
}

/// The document after `character` is typed at `at`: into the line there, or as
/// a new last line where `at` is on the line after the last one. Any other
/// `at` beyond the document leaves it as it is.
pub open spec fn document_with_char(
    document: Seq<Seq<Seq<char>>>,
    character: char,
    at: Location,
) -> Seq<Seq<Seq<char>>> {
    let line_index = at.line_index as int;
    if line_index > document.len() {
        document
    } else if line_index == document.len() {
        document.push(segmentation(seq![character]))
    } else {
        document.update(
            line_index,
            segmentation(
                text_with_insertion(document[line_index], character, at.grapheme_index as int),
            ),
        )
    }
}

/// The document after a line break is put at `at`: the line there keeps what
/// is before `at` and a new line after it gets the rest. On the line after
/// the last one an empty line is added.
pub open spec fn document_with_newline(
    document: Seq<Seq<Seq<char>>>,
    at: Location,
) -> Seq<Seq<Seq<char>>> {
    let line_index = at.line_index as int;
    let grapheme_index = at.grapheme_index as int;
    if line_index > document.len() {
        document
    } else if line_index == document.len() {
        document.push(Seq::empty())
    } else if grapheme_index <= document[line_index].len() {
        document.update(line_index, document[line_index].take(grapheme_index)).insert(
            line_index + 1,
            document[line_index].skip(grapheme_index),
        )
    } else {
        document.insert(line_index + 1, Seq::empty())
    }
}

/// Whether deleting at `at` takes a cluster out of a line.
pub open spec fn deletes_grapheme(document: Seq<Seq<Seq<char>>>, at: Location) -> bool {
    at.line_index < document.len() && at.grapheme_index < document[at.line_index as int].len()
}

/// Whether deleting at `at` joins the line after `at` onto the line of `at`.
pub open spec fn joins_next_line(document: Seq<Seq<Seq<char>>>, at: Location) -> bool {
    &&& at.line_index + 1 < document.len()
    &&& at.grapheme_index >= document[at.line_index as int].len()
}

/// The document after a deletion at `at`: inside a line the cluster at `at`
/// goes; at the end of a line the next line is joined onto it; at the end of
/// the last line, and beyond the document, nothing happens.
pub open spec fn document_with_deletion(
    document: Seq<Seq<Seq<char>>>,
    at: Location,
) -> Seq<Seq<Seq<char>>> {
    let line_index = at.line_index as int;
    if deletes_grapheme(document, at) {
        document.update(
            line_index,
            segmentation(text_with_removal(document[line_index], at.grapheme_index as int)),
        )
    } else if joins_next_line(document, at) {
        document.update(
            line_index,
            segmentation(document[line_index].flatten() + document[line_index + 1].flatten()),
        ).remove(line_index + 1)
    } else {
        document
    }
}

/// Where a text has no line feed before index `n` and ends or has a line feed
/// there, its first line ends at `n`.
proof fn lemma_line_end(text: Seq<char>, n: int)
    requires
        0 <= n <= text.len(),
        forall|j: int| 0 <= j < n ==> text[j] != '\n',
        n == text.len() || text[n] == '\n',
    ensures
        line_end(text) == n,
    decreases n,
{
    if n > 0 {
        lemma_line_end(text.drop_first(), n - 1);
    }
}

/// The characters `from..to` of `chars` as a string.
fn string_from(chars: &Vec<char>, from: usize, to: usize) -> (text: String)
    requires
        from <= to <= chars.len(),
    ensures
        text@ == chars@.subrange(from as int, to as int),
{
    let mut text = String::new();
    let mut i: usize = from;
    while i < to
        invariant
            from <= i <= to <= chars.len(),
            text@ == chars@.subrange(from as int, i as int),
        decreases to - i,
    {
        text.push(chars[i]);
        i = i + 1;
    }
    text
}

/// Cuts `text` into its lines.
pub fn split_lines(text: &str) -> (lines: Vec<String>)
    ensures
        views_of(lines@) == text_lines(text@),
{
    let chars = chars_of(text);
    let count = chars.len();
    let mut lines: Vec<String> = Vec::new();
    let mut start: usize = 0;
    assert(chars@.skip(0) =~= chars@);
    while start < count
        invariant
            start <= count == chars.len(),
            views_of(lines@) + text_lines(chars@.skip(start as int)) == text_lines(chars@),
        decreases count - start,
    {
        let ghost rest = chars@.skip(start as int);
        let mut end: usize = start;
        while end < count && chars[end] != '\n'
            invariant
                start <= end <= count == chars.len(),
                forall|j: int| start <= j < end ==> chars@[j] != '\n',
            decreases count - end,
        {
            end = end + 1;
        }
        let stop = if end < count && end > start && chars[end - 1] == '\r' {
            end - 1
        } else {
            end
        };
        let line = string_from(&chars, start, stop);
        proof {
            lemma_line_end(rest, end - start);
            if end < count {
                assert(rest.skip(end - start + 1) =~= chars@.skip(end + 1));
                assert(line@ =~= without_carriage_return(rest.take(end - start)));
            }
        }
        lines.push(line);
        start = if end < count { end + 1 } else { end };
    }
    lines
}

/// A text to write to a file.
#[derive(Debug)]
pub struct FileWrite {
    pub path: String,
    pub contents: String,
}

/// A document in memory.
pub struct Buffer {
    pub lines: Vec<Line>,
    pub file_info: FileInfo,
    pub dirty: bool,
}

impl Buffer {
    /// The lines of the document, each as its grapheme clusters.
    pub open spec fn document(&self) -> Seq<Seq<Seq<char>>> {
        Seq::new(self.lines@.len(), |i: int| self.lines@[i]@)
    }

    /// The number of lines.
    pub fn height(&self) -> (height: usize)
        ensures
            height == self.document().len(),
    {
        self.lines.len()
    }

    /// Whether the document has no lines.
    pub fn is_empty(&self) -> (empty: bool)
        ensures
            empty == (self.document().len() == 0),
    {
        self.lines.is_empty()
    }

    /// The document that `contents`, the text of the file `file_name`, holds:
    /// one line for each line of the text. It counts as unchanged.
    pub fn load(file_name: &str, contents: &str) -> (buffer: Buffer)
        ensures
            buffer.document() == text_lines(contents@).map_values(
                |line: Seq<char>| segmentation(line),
            ),
            !buffer.dirty,
            buffer.file_info.spec_path() == Some(file_name@),
    {
        let texts = split_lines(contents);
        let mut lines: Vec<Line> = Vec::new();
        let mut i: usize = 0;
        while i < texts.len()
            invariant
                i <= texts.len(),
                lines@.len() == i,
                forall|j: int| 0 <= j < i ==> (#[trigger] lines@[j])@ == segmentation(texts@[j]@),
            decreases texts.len() - i,
        {
            lines.push(Line::from(texts[i].as_str()));
            i = i + 1;
        }
        let buffer = Buffer { lines, file_info: FileInfo::from(file_name), dirty: false };
        assert(buffer.document() =~= text_lines(contents@).map_values(
            |line: Seq<char>| segmentation(line),
        ));
        buffer
    }

    /// What is to be written where the document is saved: its lines, with a
    /// line feed between each two, to its file. `None` where the document has
    /// no file.
    pub fn save_request(&self) -> (request: Option<FileWrite>)
        ensures
            request is Some == self.file_info.spec_path() is Some,
            request is Some ==> request.unwrap().path@ == self.file_info.spec_path().unwrap()
                && request.unwrap().contents@ == document_text(self.document()),
    {
        let path = match &self.file_info.path {
            Some(path) => path.clone(),
            None => {
                return None;
            },
        };
        let ghost texts = self.document().map_values(|line: Seq<Seq<char>>| line.flatten());
        let mut contents = String::new();
        let mut i: usize = 0;
        while i < self.lines.len()
            invariant
                i <= self.lines.len(),
                texts == self.document().map_values(|line: Seq<Seq<char>>| line.flatten()),
                contents@ == joined_lines(texts.take(i as int)),
            decreases self.lines.len() - i,
        {
            if i > 0 {
                contents.push('\n');
            }
            let line = self.lines[i].to_string();
            contents.append(line.as_str());
            assert(texts.take(i + 1).drop_last() =~= texts.take(i as int));
            i = i + 1;
        }
        assert(texts.take(i as int) =~= texts);
        Some(FileWrite { path, contents })
    }

    /// Records that the document was written to its file: it counts as
    /// unchanged from now on.
    pub fn mark_saved(&mut self)
        ensures
            final(self).document() == old(self).document(),
            final(self).file_info == old(self).file_info,
            !final(self).dirty,
    {
        self.dirty = false;
    }

    /// Types `character` at `at` and marks the document as changed where that
    /// changes it.
    pub fn insert_char(&mut self, character: char, at: Location)
        ensures
            final(self).document() == document_with_char(old(self).document(), character, at),
            final(self).dirty == (old(self).dirty || at.line_index <= old(self).document().len()),
            final(self).file_info == old(self).file_info,
    {
        if at.line_index == self.lines.len() {
            let mut line = Line::default();
            line.append_char(character);
            self.lines.push(line);
            self.dirty = true;
        } else if at.line_index < self.lines.len() {
            self.lines[at.line_index].insert_char(character, at.grapheme_index);
            self.dirty = true;
        }
    }

    /// Breaks the line at `at` in two and marks the document as changed where
    /// that changes it.
    pub fn insert_newline(&mut self, at: Location)
        ensures
            final(self).document() == document_with_newline(old(self).document(), at),
            final(self).dirty == (old(self).dirty || at.line_index <= old(self).document().len()),
            final(self).file_info == old(self).file_info,
    {
        if at.line_index == self.lines.len() {
            self.lines.push(Line::default());
            self.dirty = true;
        } else if at.line_index < self.lines.len() {
            let rest = self.lines[at.line_index].split(at.grapheme_index);
            self.lines.insert(at.line_index + 1, rest);
            self.dirty = true;
        }
    }

    /// Deletes at `at` and marks the document as changed where that changes it.
    pub fn delete(&mut self, at: Location)
        ensures
            final(self).document() == document_with_deletion(old(self).document(), at),
            final(self).dirty == (old(self).dirty || deletes_grapheme(old(self).document(), at)
                || joins_next_line(old(self).document(), at)),
            final(self).file_info == old(self).file_info,
    {
        if at.line_index < self.lines.len() {
            if at.grapheme_index < self.lines[at.line_index].grapheme_count() {
                self.lines[at.line_index].delete(at.grapheme_index);
                self.dirty = true;
            } else if at.line_index + 1 < self.lines.len() {
                let next_line = self.lines.remove(at.line_index + 1);
                self.lines[at.line_index].append(&next_line);
                self.dirty = true;
            }
        }
    }
}

impl Default for Buffer {
    /// The empty document, unchanged and without a file.
    fn default() -> (buffer: Buffer)
        ensures
            buffer.document() == Seq::<Seq<Seq<char>>>::empty(),
            !buffer.dirty,
            buffer.file_info.spec_path() == None::<Seq<char>>,
    {
        let buffer = Buffer { lines: Vec::new(), file_info: FileInfo::default(), dirty: false };
        buffer
    }
}

} // verus!
