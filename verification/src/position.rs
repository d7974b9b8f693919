//! Screen coordinates, viewport sizes and document coordinates.

use vstd::prelude::*;

verus! {

/// A place on the screen, or in the document measured in screen cells:
/// `x` counts columns, `y` rows.
#[derive(Copy, Clone, Debug, PartialEq, Eq, Structural)]
pub struct Position {
    pub x: usize,
    pub y: usize,
}

impl Position {
    /// The difference of two positions on each axis, zero where `other` lies
    /// beyond `self`.
    pub open spec fn spec_saturating_sub(self, other: Position) -> Position {
        Position {
            x: if self.x >= other.x { (self.x - other.x) as usize } else { 0 },
            y: if self.y >= other.y { (self.y - other.y) as usize } else { 0 },
        }
    }

    /// `self` as seen from `other`, clamped at the origin on each axis.
    pub fn saturating_sub(self, other: Position) -> (difference: Position)
        ensures
            difference == self.spec_saturating_sub(other),
    {
        Position { y: self.y.saturating_sub(other.y), x: self.x.saturating_sub(other.x) }
    }
}

impl Default for Position {
    /// The origin.
    fn default() -> (position: Position)
        ensures
            position == (Position { x: 0, y: 0 }),
    {
        Position { x: 0, y: 0 }
    }
}

/// The extent of a rectangle of screen cells.
#[derive(Copy, Clone, Debug, PartialEq, Eq, Structural)]
pub struct Size {
    pub height: usize,
    pub width: usize,
}

impl Default for Size {
    /// The empty rectangle.
    fn default() -> (size: Size)
        ensures
            size == (Size { height: 0, width: 0 }),
    {
        Size { height: 0, width: 0 }
    }
}

/// A place in the document: a line and a grapheme cluster within it. Neither
/// field counts bytes or characters.
#[derive(Copy, Clone, Debug, PartialEq, Eq, Structural)]
pub struct Location {
    pub grapheme_index: usize,
    pub line_index: usize,
}

impl Default for Location {
    /// The start of the document.
    fn default() -> (location: Location)
        ensures
            location == (Location { grapheme_index: 0, line_index: 0 }),
    {
        Location { grapheme_index: 0, line_index: 0 }
    }
}

} // verus!
