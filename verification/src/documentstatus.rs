//! A snapshot of what a status line shows of a document.

use vstd::prelude::*;

verus! {

/// The decimal digit for `digit`, which is below ten.
pub open spec fn digit_char(digit: nat) -> char {
    if digit == 0 {
        '0'
    } else if digit == 1 {
        '1'
    } else if digit == 2 {
        '2'
    } else if digit == 3 {
        '3'
    } else if digit == 4 {
        '4'
    } else if digit == 5 {
        '5'
    } else if digit == 6 {
        '6'
    } else if digit == 7 {
        '7'
    } else if digit == 8 {
        '8'
    } else {
        '9'
    }
}

/// `n` written in decimal, without leading zeros.
pub open spec fn decimal(n: nat) -> Seq<char>
    decreases n,
{
    if n < 10 {
        seq![digit_char(n)]
    } else {
        decimal(n / 10).push(digit_char(n % 10))
    }
}

/// The decimal digit for `digit`.
fn digit_to_char(digit: usize) -> (c: char)
    requires
        digit < 10,
    ensures
        c == digit_char(digit as nat),
{
    match digit {
        0 => '0',
        1 => '1',
        2 => '2',
        3 => '3',
        4 => '4',
        5 => '5',
        6 => '6',
        7 => '7',
        8 => '8',
        _ => '9',
    }
}

/// Appends `n`, written in decimal, to `out`.
pub fn push_decimal(out: &mut String, n: usize)
    ensures
        final(out)@ == old(out)@ + decimal(n as nat),
    decreases n,
{
    if n >= 10 {
        push_decimal(out, n / 10);
    }
    out.push(digit_to_char(n % 10));
}

/// What a status line shows of a document.
#[derive(Debug)]
pub struct DocumentStatus {
    pub total_lines: usize,
    pub current_line_index: usize,
    pub is_modified: bool,
    pub file_name: String,
}

impl DocumentStatus {
    /// The text of the marker for a changed document: `(modified)`, or
    /// nothing for a document that was not changed.
    pub open spec fn modified_indicator(&self) -> Seq<char> {
        if self.is_modified {
            "(modified)"@
        } else {
            Seq::empty()
        }
    }

    /// The text that tells the number of lines: the number and ` lines`.
    pub open spec fn line_count(&self) -> Seq<char> {
        decimal(self.total_lines as nat) + " lines"@
    }

    /// The text that tells where the cursor is: the number of its line,
    /// counted from one, a slash and the number of lines.
    pub open spec fn position_indicator(&self) -> Seq<char> {
        decimal(if self.current_line_index < usize::MAX {
            (self.current_line_index + 1) as nat
        } else {
            usize::MAX as nat
        }) + seq!['/'] + decimal(self.total_lines as nat)
    }

    /// Whether two snapshots show the same: the same numbers, the same flag
    /// and names with the same text.
    pub open spec fn same_as(&self, other: &DocumentStatus) -> bool {
        &&& self.total_lines == other.total_lines
        &&& self.current_line_index == other.current_line_index
        &&& self.is_modified == other.is_modified
        &&& self.file_name@ == other.file_name@
    }

    /// The marker for a changed document.
    pub fn modified_indicator_to_string(&self) -> (text: String)
        ensures
            text@ == self.modified_indicator(),
    {
        if self.is_modified {
            "(modified)".to_owned()
        } else {
            String::new()
        }
    }

    /// The number of lines in words.
    pub fn line_count_to_string(&self) -> (text: String)
        ensures
            text@ == self.line_count(),
    {
        let mut text = String::new();
        push_decimal(&mut text, self.total_lines);
        text.append(" lines");
        text
    }

    /// The cursor's line among the lines of the document.
    pub fn position_indicator_to_string(&self) -> (text: String)
        ensures
            text@ == self.position_indicator(),
    {
        let mut text = String::new();
        push_decimal(&mut text, self.current_line_index.saturating_add(1));
        text.push('/');
        push_decimal(&mut text, self.total_lines);
        text
    }
}

impl Default for DocumentStatus {
    /// The status of an empty document without a name.
    fn default() -> (status: DocumentStatus)
        ensures
            status.total_lines == 0,
            status.current_line_index == 0,
            !status.is_modified,
            status.file_name@ == Seq::<char>::empty(),
    {
        DocumentStatus {
            total_lines: 0,
            current_line_index: 0,
            is_modified: false,
            file_name: String::new(),
        }
    }
}

impl PartialEq for DocumentStatus {
    /// Whether two snapshots show the same.
    fn eq(&self, other: &DocumentStatus) -> (equal: bool) {
        self.total_lines == other.total_lines && self.current_line_index
            == other.current_line_index && self.is_modified == other.is_modified
            && self.file_name == other.file_name
    }
}

impl vstd::std_specs::cmp::PartialEqSpecImpl for DocumentStatus {
    /// `==` on snapshots is what `eq_spec` says.
    open spec fn obeys_eq_spec() -> bool {
        true
    }

    /// What `==` means for snapshots.
    open spec fn eq_spec(&self, other: &DocumentStatus) -> bool {
        self.same_as(other)
    }
}

impl Eq for DocumentStatus {

}

} // verus!
