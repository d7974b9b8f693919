//! The Unicode services the text model relies on: grapheme segmentation,
//! display width and character classes.
//!
//! What these services compute is taken on trust from the code that is
//! called. Each of them is a function of its argument alone, so its result
//! has a name here, and the contracts of the text model are stated over those
//! names.

use unicode_segmentation::UnicodeSegmentation;
use unicode_width::UnicodeWidthStr;
use vstd::prelude::*;

verus! {

/// The extended grapheme clusters of `text`, in order, as
/// `UnicodeSegmentation::graphemes` finds them.
pub uninterp spec fn grapheme_clusters(text: Seq<char>) -> Seq<Seq<char>>;

/// The number of terminal columns `text` takes up, as `UnicodeWidthStr::width`
/// reckons it.
pub uninterp spec fn display_width(text: Seq<char>) -> nat;

/// Whether `c` is a control character, as `char::is_control` tells.
pub uninterp spec fn is_control_char(c: char) -> bool;

/// Whether `c` is white space, as `char::is_whitespace` tells.
pub uninterp spec fn is_whitespace_char(c: char) -> bool;

/// The clusters a line with the text `text` is made of: its grapheme clusters.
///
/// Grapheme clusters are consecutive pieces of the text they are taken from.
/// The guard builds this into the definition, so that
/// `segmentation(text).flatten() == text` holds of every text and the laws of
/// the line model can be proved without assuming it.
pub open spec fn segmentation(text: Seq<char>) -> Seq<Seq<char>> {
    if grapheme_clusters(text).flatten() == text {
        grapheme_clusters(text)
    } else if text.len() == 0 {
        Seq::empty()
    } else {
        seq![text]
    }
}

/// The clusters of a text, joined together, are that text.
pub proof fn lemma_segmentation_covers(text: Seq<char>)
    ensures
        segmentation(text).flatten() == text,
{
    if grapheme_clusters(text).flatten() != text && text.len() > 0 {
        seq![text].lemma_flatten_one_element();
    }
}

/// The character sequences held by a sequence of strings.
pub open spec fn views_of(strings: Seq<String>) -> Seq<Seq<char>> {
    Seq::new(strings.len(), |i: int| strings[i]@)
}

/// Calls `UnicodeSegmentation::graphemes` with extended clusters switched on
/// and copies the slices it yields. Trusted: the slices are the grapheme
/// clusters of `text`, and they are consecutive pieces of `text` that cover it
/// from start to end, so that joined together they give `text` back.
#[verifier::external_body]
pub(crate) fn split_graphemes(text: &str) -> (clusters: Vec<String>)
    ensures
        views_of(clusters@) == grapheme_clusters(text@),
        views_of(clusters@).flatten() == text@,
{
    let mut clusters = Vec::new();
    for cluster in text.graphemes(true) {
        clusters.push(cluster.to_string());
    }
    clusters
}

/// Calls `UnicodeWidthStr::width`. Trusted: the width is a function of the
/// characters of `text` alone.
#[verifier::external_body]
pub(crate) fn natural_width(text: &str) -> (width: usize)
    ensures
        width == display_width(text@),
{
    text.width()
}

/// Trusted of `char::is_control`: the answer is a function of the character
/// alone.
pub assume_specification[ char::is_control ](c: char) -> (b: bool)
    ensures
        b == is_control_char(c),
;

/// Trusted of `char::is_whitespace`: the answer is a function of the
/// character alone.
pub assume_specification[ char::is_whitespace ](c: char) -> (b: bool)
    ensures
        b == is_whitespace_char(c),
;

/// Trusted of `String::push`: it appends the character to the string.
pub assume_specification[ String::push ](s: &mut String, c: char)
    ensures
        final(s)@ == old(s)@.push(c),
;

/// The characters of `s`, in order.
pub fn chars_of(s: &str) -> (chars: Vec<char>)
    ensures
        chars@ == s@,
{
    let mut chars: Vec<char> = Vec::new();
    for c in iter: s.chars()
        invariant
            chars@ == iter.seq().take(iter.index()),
            iter.seq() == s@,
    {
        chars.push(c);
    }
    chars
}

} // verus!
