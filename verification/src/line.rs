//! A single document line: an ordered sequence of grapheme clusters, each with
//! the cell width and the substitute glyph it is drawn with.

use crate::unicode::{
    chars_of, display_width, is_control_char, is_whitespace_char, lemma_segmentation_covers,
    natural_width, segmentation, split_graphemes,
};
use std::ops::Range;
use vstd::prelude::*;
use vstd::seq_lib::lemma_flatten_concat;

verus! {

/// Drawn in place of a tab.
pub const TAB_MARK: char = ' ';

/// Drawn in place of a cluster that is visible but consists of white space only.
pub const BLANK_MARK: char = '\u{b7}';

/// Drawn in place of a lone control character.
pub const CONTROL_MARK: char = '\u{25af}';

/// Drawn in place of any other cluster without a width of its own.
pub const PLACEHOLDER_MARK: char = 'o';

/// Drawn in place of a cluster that a column range cuts off.
pub const ELLIPSIS_MARK: char = '\u{22ef}';

/// The number of terminal cells a cluster is drawn in.
#[derive(Copy, Clone, Debug, PartialEq, Eq, Structural)]
pub enum GraphemeWidth {
    Half,
    Full,
}

impl GraphemeWidth {
    /// One column for `Half`, two for `Full`.
    pub open spec fn columns(self) -> nat {
        match self {
            GraphemeWidth::Half => 1,
            GraphemeWidth::Full => 2,
        }
    }

    /// `other` moved right by this width, stopping at `usize::MAX`.
    pub fn saturating_add(self, other: usize) -> (sum: usize)
        ensures
            sum == saturated(other + self.columns()),
    {
        match self {
            GraphemeWidth::Half => other.saturating_add(1),
            GraphemeWidth::Full => other.saturating_add(2),
        }
    }
}

/// The `usize` nearest to `n`: zero for a negative number, `usize::MAX` for
/// one that is too large.
pub open spec fn saturated(n: int) -> usize {
    if n < 0 {
        0
    } else if n <= usize::MAX {
        n as usize
    } else {
        usize::MAX
    }
}

/// Whether every character of `cluster` is white space.
pub open spec fn is_blank(cluster: Seq<char>) -> bool {
    forall|i: int| 0 <= i < cluster.len() ==> is_whitespace_char(#[trigger] cluster[i])
}

/// The glyph drawn in place of `cluster`, if it is not drawn as it stands.
///
/// A plain space is kept. A tab becomes a space. Any other cluster that takes
/// up room but is blank becomes `BLANK_MARK`. A cluster without a width becomes
/// `CONTROL_MARK` if it is one control character and `PLACEHOLDER_MARK`
/// otherwise. Everything else is kept.
pub open spec fn replacement_of(cluster: Seq<char>) -> Option<char> {
    if cluster == seq![' '] {
        None
    } else if cluster == seq!['\t'] {
        Some(TAB_MARK)
    } else if display_width(cluster) > 0 && is_blank(cluster) {
        Some(BLANK_MARK)
    } else if display_width(cluster) == 0 {
        if cluster.len() == 1 && is_control_char(cluster[0]) {
            Some(CONTROL_MARK)
        } else {
            Some(PLACEHOLDER_MARK)
        }
    } else {
        None
    }
}

/// The cell width `cluster` is drawn with: a substitute glyph takes one column,
/// a kept cluster one or two according to its natural width.
pub open spec fn width_of(cluster: Seq<char>) -> GraphemeWidth {
    if replacement_of(cluster) is Some || display_width(cluster) <= 1 {
        GraphemeWidth::Half
    } else {
        GraphemeWidth::Full
    }
}

/// What is drawn for `cluster` when all of its cells are in view.
pub open spec fn rendered(cluster: Seq<char>) -> Seq<char> {
    match replacement_of(cluster) {
        Some(glyph) => seq![glyph],
        None => cluster,
    }
}

/// The number of columns taken up by the first `n` clusters of `clusters`
/// (by all of them where `n` exceeds their number).
pub open spec fn columns_before(clusters: Seq<Seq<char>>, n: int) -> nat
    decreases n,
{
    if n <= 0 {
        0
    } else if n > clusters.len() {
        columns_before(clusters, clusters.len() as int)
    } else {
        columns_before(clusters, n - 1) + width_of(clusters[n - 1]).columns()
    }
}

/// The text of `clusters` after `character` is put in front of cluster `at`, or
/// at the end where `at` is no index of a cluster.
pub open spec fn text_with_insertion(clusters: Seq<Seq<char>>, character: char, at: int) -> Seq<char> {
    let k = if 0 <= at < clusters.len() { at } else { clusters.len() as int };
    clusters.take(k).flatten() + seq![character] + clusters.skip(k).flatten()
}

/// The text of `clusters` without cluster `at`; all of it where `at` is no index
/// of a cluster.
pub open spec fn text_with_removal(clusters: Seq<Seq<char>>, at: int) -> Seq<char> {
    if 0 <= at < clusters.len() {
        clusters.remove(at).flatten()
    } else {
        clusters.flatten()
    }
}

/// What cluster `i` contributes to the columns `start..end`: nothing where it
/// lies outside them, `ELLIPSIS_MARK` where one of the two bounds cuts it, and
/// what it is drawn as where it lies inside.
pub open spec fn visible_piece(clusters: Seq<Seq<char>>, i: int, start: int, end: int) -> Seq<char> {
    let left = columns_before(clusters, i);
    let right = columns_before(clusters, i + 1);
    if right <= start || left >= end {
        Seq::empty()
    } else if left < start || right > end {
        seq![ELLIPSIS_MARK]
    } else {
        rendered(clusters[i])
    }
}

/// The text drawn for the columns `start..end` of a line made of `clusters`.
pub open spec fn visible_text(clusters: Seq<Seq<char>>, start: int, end: int) -> Seq<char> {
    if start >= end {
        Seq::empty()
    } else {
        Seq::new(clusters.len(), |i: int| visible_piece(clusters, i, start, end)).flatten()
    }
}

/// The columns taken up by a prefix of a line never exceed those taken up by a
/// longer prefix.
pub proof fn lemma_columns_before_monotonic(clusters: Seq<Seq<char>>, i: int, j: int)
    requires
        i <= j,
    ensures
        columns_before(clusters, i) <= columns_before(clusters, j),
        saturated(columns_before(clusters, i) as int) <= saturated(columns_before(clusters, j) as int),
    decreases j,
{
    if j <= 0 || i == j {
    } else if j > clusters.len() {
        if i > clusters.len() {
        } else {
            lemma_columns_before_monotonic(clusters, i, clusters.len() as int);
        }
    } else {
        lemma_columns_before_monotonic(clusters, i, j - 1);
    }
}

/// Joining sequences that are all empty gives the empty sequence.
proof fn lemma_flatten_of_empties<A>(parts: Seq<Seq<A>>)
    requires
        forall|j: int| 0 <= j < parts.len() ==> (#[trigger] parts[j]).len() == 0,
    ensures
        parts.flatten() =~= Seq::<A>::empty(),
    decreases parts.len(),
{
    if parts.len() > 0 {
        lemma_flatten_of_empties(parts.drop_first());
    }
}

/// A grapheme cluster with the width and the glyph it is drawn with.
struct TextFragment {
    grapheme: String,
    rendered_width: GraphemeWidth,
    replacement: Option<char>,
}

impl TextFragment {
    /// The cached width and glyph are those the cluster's text determines.
    spec fn consistent(&self) -> bool {
        &&& self.rendered_width == width_of(self.grapheme@)
        &&& self.replacement == replacement_of(self.grapheme@)
    }

    /// The fragment for the cluster `grapheme`.
    fn new(grapheme: String) -> (fragment: TextFragment)
        ensures
            fragment.grapheme@ == grapheme@,
            fragment.consistent(),
    {
        let replacement = Line::replacement_character(grapheme.as_str());
        let rendered_width = match replacement {
            Some(_) => GraphemeWidth::Half,
            None => {
                if natural_width(grapheme.as_str()) <= 1 {
                    GraphemeWidth::Half
                } else {
                    GraphemeWidth::Full
                }
            },
        };
        TextFragment { grapheme, rendered_width, replacement }
    }
}

/// The clusters held by a sequence of fragments.
spec fn fragments_view(fragments: Seq<TextFragment>) -> Seq<Seq<char>> {
    Seq::new(fragments.len(), |i: int| fragments[i].grapheme@)
}

/// One line of a document.
pub struct Line {
    fragments: Vec<TextFragment>,
}

impl View for Line {
    type V = Seq<Seq<char>>;

    /// The line's grapheme clusters, in order.
    closed spec fn view(&self) -> Seq<Seq<char>> {
        fragments_view(self.fragments@)
    }
}

impl Default for Line {
    /// The empty line.
    fn default() -> (line: Line)
        ensures
            line@ == Seq::<Seq<char>>::empty(),
    {
        let line = Line { fragments: Vec::new() };
        line
    }
}

impl Line {
    /// Every fragment holds the width and the glyph that belong to its
    /// cluster.
    #[verifier::type_invariant]
    spec fn well_formed(&self) -> bool {
        forall|i: int| 0 <= i < self.fragments@.len() ==> (#[trigger] self.fragments@[i]).consistent()
    }

    /// The clusters of `line_str`, each with its width and glyph.
    fn str_to_fragments(line_str: &str) -> (fragments: Vec<TextFragment>)
        ensures
            fragments_view(fragments@) == segmentation(line_str@),
            forall|i: int| 0 <= i < fragments@.len() ==> (#[trigger] fragments@[i]).consistent(),
    {
        let clusters = split_graphemes(line_str);
        let ghost all = clusters@;
        let mut fragments: Vec<TextFragment> = Vec::new();
        for cluster in iter: clusters
            invariant
                iter.seq() == all,
                fragments@.len() == iter.index(),
                forall|j: int| 0 <= j < fragments@.len() ==> (#[trigger] fragments@[j]).grapheme@ == all[j]@,
                forall|j: int| 0 <= j < fragments@.len() ==> (#[trigger] fragments@[j]).consistent(),
        {
            fragments.push(TextFragment::new(cluster));
        }
        fragments
    }

    /// The line's text: its clusters joined together.
    pub open spec fn text(&self) -> Seq<char> {
        self@.flatten()
    }

    /// Segments `line_str` into grapheme clusters and classifies each of them.
    pub fn from(line_str: &str) -> (line: Line)
        ensures
            line@ == segmentation(line_str@),
            line.text() == line_str@,
    {
        proof {
            lemma_segmentation_covers(line_str@);
        }
        let fragments = Self::str_to_fragments(line_str);
        Line { fragments }
    }

    /// The number of grapheme clusters in the line.
    pub fn grapheme_count(&self) -> (count: usize)
        ensures
            count == self@.len(),
    {
        self.fragments.len()
    }

    /// Appends the text of the clusters `from..to` to `out`.
    fn push_text(&self, from: usize, to: usize, out: &mut String)
        requires
            from <= to <= self@.len(),
        ensures
            final(out)@ == old(out)@ + self@.subrange(from as int, to as int).flatten(),
    {
        let mut i: usize = from;
        while i < to
            invariant
                from <= i <= to <= self@.len(),
                out@ == old(out)@ + self@.subrange(from as int, i as int).flatten(),
            decreases to - i,
        {
            proof {
                let done = self@.subrange(from as int, i as int);
                assert(self@.subrange(from as int, i + 1) =~= done.push(self@[i as int]));
                done.lemma_flatten_push(self@[i as int]);
            }
            out.append(self.fragments[i].grapheme.as_str());
            i = i + 1;
        }
    }

    /// The line's text as a string.
    pub fn to_string(&self) -> (text: String)
        ensures
            text@ == self.text(),
    {
        let mut text = String::new();
        self.push_text(0, self.fragments.len(), &mut text);
        assert(self@.subrange(0, self@.len() as int) =~= self@);
        text
    }

    /// Joins the text of `other` onto the end of this line and segments the
    /// result anew, so that clusters may form across the seam.
    pub fn append(&mut self, other: &Line)
        ensures
            final(self)@ == segmentation(old(self).text() + other.text()),
            final(self).text() == old(self).text() + other.text(),
    {
        let mut concat = self.to_string();
        let tail = other.to_string();
        concat.append(tail.as_str());
        proof {
            lemma_segmentation_covers(concat@);
        }
        self.fragments = Self::str_to_fragments(concat.as_str());
    }

    /// Puts `character` in front of cluster `at`, or at the end of the line
    /// where `at` is no index of a cluster, and segments the result anew: the
    /// character may join a neighbouring cluster.
    pub fn insert_char(&mut self, character: char, at: usize)
        ensures
            final(self)@ == segmentation(text_with_insertion(old(self)@, character, at as int)),
            final(self).text() == text_with_insertion(old(self)@, character, at as int),
    {
        let count = self.fragments.len();
        let k = if at < count { at } else { count };
        let mut result = String::new();
        self.push_text(0, k, &mut result);
        result.push(character);
        self.push_text(k, count, &mut result);
        proof {
            assert(result@ =~= text_with_insertion(self@, character, at as int));
            lemma_segmentation_covers(result@);
        }
        self.fragments = Self::str_to_fragments(result.as_str());
    }

    /// Puts `character` at the end of the line.
    pub fn append_char(&mut self, character: char)
        ensures
            final(self)@ == segmentation(old(self).text() + seq![character]),
            final(self).text() == old(self).text() + seq![character],
    {
        proof {
            assert(old(self)@.take(old(self)@.len() as int) =~= old(self)@);
        }
        self.insert_char(character, self.grapheme_count());
    }

    /// Takes cluster `at` out of the line and segments what is left anew.
    /// Where `at` is no index of a cluster the text stays as it is.
    pub fn delete(&mut self, at: usize)
        ensures
            final(self)@ == segmentation(text_with_removal(old(self)@, at as int)),
            final(self).text() == text_with_removal(old(self)@, at as int),
    {
        let count = self.fragments.len();
        let mut result = String::new();
        if at < count {
            self.push_text(0, at, &mut result);
            self.push_text(at + 1, count, &mut result);
            proof {
                let head = self@.subrange(0, at as int);
                let tail = self@.subrange(at + 1, count as int);
                lemma_flatten_concat(head, tail);
            }
        } else {
            self.push_text(0, count, &mut result);
            assert(self@.subrange(0, count as int) =~= self@);
        }
        proof {
            lemma_segmentation_covers(result@);
        }
        self.fragments = Self::str_to_fragments(result.as_str());
    }

    /// Takes the last cluster out of the line.
    pub fn delete_last(&mut self)
        ensures
            final(self)@ == segmentation(text_with_removal(old(self)@, old(self)@.len() - 1)),
            final(self).text() == text_with_removal(old(self)@, old(self)@.len() - 1),
    {
        self.delete(self.grapheme_count().saturating_sub(1));
    }

    /// Cuts the line in front of cluster `at`: the line keeps the clusters
    /// before it and the returned line owns the rest. Where `at` exceeds the
    /// number of clusters the line is left alone and an empty line is returned.
    pub fn split(&mut self, at: usize) -> (rest: Line)
        ensures
            at <= old(self)@.len() ==> final(self)@ == old(self)@.take(at as int) && rest@
                == old(self)@.skip(at as int),
            at > old(self)@.len() ==> final(self)@ == old(self)@ && rest@ == Seq::<Seq<char>>::empty(),
    {
        proof {
            use_type_invariant(&*self);
        }
        if at > self.fragments.len() {
            return Line::default();
        }
        let mut head: Vec<TextFragment> = Vec::new();
        std::mem::swap(&mut self.fragments, &mut head);
        let remainder = head.split_off(at);
        self.fragments = head;
        Line { fragments: remainder }
    }

    /// The number of columns the first `grapheme_index` clusters take up, or
    /// `usize::MAX` where the sum does not fit.
    pub fn width_until(&self, grapheme_index: usize) -> (width: usize)
        ensures
            width == saturated(columns_before(self@, grapheme_index as int) as int),
    {
        proof {
            use_type_invariant(self);
        }
        let count = self.fragments.len();
        let n = if grapheme_index < count { grapheme_index } else { count };
        let mut width: usize = 0;
        let mut i: usize = 0;
        while i < n
            invariant
                i <= n <= self@.len(),
                self.well_formed(),
                width == saturated(columns_before(self@, i as int) as int),
            decreases n - i,
        {
            width = self.fragments[i].rendered_width.saturating_add(width);
            i = i + 1;
        }
        width
    }

    /// The number of columns the whole line takes up, or `usize::MAX` where
    /// the sum does not fit.
    pub fn width(&self) -> (width: usize)
        ensures
            width == saturated(columns_before(self@, self@.len() as int) as int),
    {
        self.width_until(self.grapheme_count())
    }

    /// The text to draw for the columns `range` of the line. Clusters outside
    /// the range are left out, a cluster that a bound of the range cuts is drawn
    /// as `ELLIPSIS_MARK`, and every other cluster as its glyph or its own text.
    pub fn get_visible_graphemes(&self, range: Range<usize>) -> (text: String)
        ensures
            text@ == visible_text(self@, range.start as int, range.end as int),
    {
        let mut result = String::new();
        if range.start >= range.end {
            return result;
        }
        proof {
            use_type_invariant(self);
        }
        let ghost pieces = Seq::new(
            self@.len(),
            |i: int| visible_piece(self@, i, range.start as int, range.end as int),
        );
        let count = self.fragments.len();
        let mut current_pos: usize = 0;
        let mut i: usize = 0;
        while i < count && current_pos < range.end
            invariant
                i <= count == self@.len(),
                self.well_formed(),
                range.start < range.end,
                pieces == Seq::new(
                    self@.len(),
                    |i: int| visible_piece(self@, i, range.start as int, range.end as int),
                ),
                current_pos < range.end ==> current_pos == columns_before(self@, i as int),
                current_pos >= range.end ==> columns_before(self@, i as int) >= range.end,
                result@ == pieces.take(i as int).flatten(),
            decreases count - i,
        {
            let fragment = &self.fragments[i];
            let columns: usize = match fragment.rendered_width {
                GraphemeWidth::Half => 1,
                GraphemeWidth::Full => 2,
            };
            let room = range.end - current_pos;
            let ends_after_start = current_pos >= range.start || columns > range.start - current_pos;
            proof {
                assert(pieces.take(i + 1) =~= pieces.take(i as int).push(pieces[i as int]));
                pieces.take(i as int).lemma_flatten_push(pieces[i as int]);
            }
            if ends_after_start {
                if columns > room || current_pos < range.start {
                    result.push(ELLIPSIS_MARK);
                } else {
                    match fragment.replacement {
                        Some(glyph) => {
                            result.push(glyph);
                        },
                        None => {
                            result.append(fragment.grapheme.as_str());
                        },
                    }
                }
            }
            current_pos = if columns >= room { range.end } else { current_pos + columns };
            i = i + 1;
        }
        proof {
            let rest = pieces.skip(i as int);
            assert forall|j: int| 0 <= j < rest.len() implies (#[trigger] rest[j]).len() == 0 by {
                lemma_columns_before_monotonic(self@, i as int, i + j);
            }
            lemma_flatten_of_empties(rest);
            assert(pieces =~= pieces.take(i as int) + rest);
            lemma_flatten_concat(pieces.take(i as int), rest);
        }
        result
    }

    /// The glyph drawn in place of `for_str`, if any.
    pub fn replacement_character(for_str: &str) -> (replacement: Option<char>)
        ensures
            replacement == replacement_of(for_str@),
    {
        let width = natural_width(for_str);
        let chars = chars_of(for_str);
        if chars.len() == 1 && chars[0] == ' ' {
            assert(for_str@ =~= seq![' ']);
            return None;
        }
        if chars.len() == 1 && chars[0] == '\t' {
            assert(for_str@ =~= seq!['\t']);
            return Some(TAB_MARK);
        }
        if width > 0 && all_whitespace(&chars) {
            Some(BLANK_MARK)
        } else if width == 0 {
            if chars.len() == 1 && chars[0].is_control() {
                Some(CONTROL_MARK)
            } else {
                Some(PLACEHOLDER_MARK)
            }
        } else {
            None
        }
    }
}

/// Whether `chars` holds white space only.
fn all_whitespace(chars: &Vec<char>) -> (blank: bool)
    ensures
        blank == is_blank(chars@),
{
    let mut i: usize = 0;
    while i < chars.len()
        invariant
            i <= chars.len(),
            forall|j: int| 0 <= j < i ==> is_whitespace_char(#[trigger] chars@[j]),
        decreases chars.len() - i,
    {
        if !chars[i].is_whitespace() {
            return false;
        }
        i = i + 1;
    }
    true
}

/// What a line made of `clusters` is drawn as when nothing is cut off.
pub open spec fn rendered_text(clusters: Seq<Seq<char>>) -> Seq<char> {
    Seq::new(clusters.len(), |i: int| rendered(clusters[i])).flatten()
}

/// Putting a character in front of cluster `at` and then deleting cluster `at`
/// gives the line's clusters back exactly when two things hold: the line is
/// segmented as its own text is, and the deletion takes out what the insertion
/// put in, so that the text is as it was. The second fails where the
/// character joins a neighbouring cluster.
pub proof fn lemma_insert_then_delete(clusters: Seq<Seq<char>>, character: char, at: int)
    ensures
        ({
            let inserted = segmentation(text_with_insertion(clusters, character, at));
            segmentation(text_with_removal(inserted, at)) == clusters <==> {
                &&& segmentation(clusters.flatten()) == clusters
                &&& text_with_removal(inserted, at) == clusters.flatten()
            }
        }),
{
    let inserted = segmentation(text_with_insertion(clusters, character, at));
    lemma_segmentation_covers(text_with_removal(inserted, at));
}

/// A character that comes to stand as a cluster of its own, with the clusters
/// around it unchanged, is taken out again by deleting at the same index.
pub proof fn lemma_insert_alone_then_delete(clusters: Seq<Seq<char>>, character: char, at: int)
    requires
        0 <= at <= clusters.len(),
        segmentation(clusters.flatten()) == clusters,
        segmentation(text_with_insertion(clusters, character, at)) == clusters.insert(
            at,
            seq![character],
        ),
    ensures
        segmentation(
            text_with_removal(segmentation(text_with_insertion(clusters, character, at)), at),
        ) == clusters,
{
    assert(clusters.insert(at, seq![character]).remove(at) =~= clusters);
}

/// Splitting a line and appending the part split off to the part kept gives a
/// line with the text the line had before, wherever it was split.
pub proof fn lemma_split_then_append(clusters: Seq<Seq<char>>, at: int)
    requires
        0 <= at,
    ensures
        ({
            let head = if at <= clusters.len() { clusters.take(at) } else { clusters };
            let rest = if at <= clusters.len() { clusters.skip(at) } else { Seq::empty() };
            segmentation(head.flatten() + rest.flatten()).flatten() == clusters.flatten()
        }),
{
    let head = if at <= clusters.len() { clusters.take(at) } else { clusters };
    let rest = if at <= clusters.len() { clusters.skip(at) } else { Seq::empty() };
    assert(head + rest =~= clusters);
    lemma_flatten_concat(head, rest);
    lemma_segmentation_covers(head.flatten() + rest.flatten());
}

/// Every cluster takes up at least one column.
pub proof fn lemma_columns_before_strict(clusters: Seq<Seq<char>>, i: int)
    requires
        0 <= i < clusters.len(),
    ensures
        columns_before(clusters, i) < columns_before(clusters, i + 1),
{
}

/// The columns `0..width` of a line, `width` being the width of the whole line,
/// show the line as it is drawn with nothing cut off, provided that width fits
/// in a `usize`.
pub proof fn lemma_full_range_shows_all(clusters: Seq<Seq<char>>)
    requires
        columns_before(clusters, clusters.len() as int) <= usize::MAX,
    ensures
        visible_text(
            clusters,
            0,
            saturated(columns_before(clusters, clusters.len() as int) as int) as int,
        ) == rendered_text(clusters),
{
    let width = columns_before(clusters, clusters.len() as int) as int;
    if clusters.len() > 0 {
        lemma_columns_before_monotonic(clusters, 1, clusters.len() as int);
        lemma_columns_before_strict(clusters, 0);
    }
    if width > 0 {
        let pieces = Seq::new(clusters.len(), |i: int| visible_piece(clusters, i, 0, width));
        let glyphs = Seq::new(clusters.len(), |i: int| rendered(clusters[i]));
        assert forall|i: int| 0 <= i < clusters.len() implies pieces[i] == glyphs[i] by {
            lemma_columns_before_strict(clusters, i);
            lemma_columns_before_monotonic(clusters, 0, i);
            lemma_columns_before_monotonic(clusters, i + 1, clusters.len() as int);
        }
        assert(pieces =~= glyphs);
    }
}

} // verus!
