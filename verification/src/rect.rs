//! Regions of the display surface.

use vstd::prelude::*;

verus! {

/// A rectangular area of the screen, given by two opposite corners.
///
/// The protocol carries the four coordinates as they are: a corner may lie
/// outside the panel, and the second corner need not lie beyond the first.
#[derive(Clone, Copy, Debug, PartialEq, Eq, Structural)]
pub struct Rect {
    pub x0: i16,
    pub y0: i16,
    pub x1: i16,
    pub y1: i16,
}

impl Rect {
    /// The area between the corners `(x0, y0)` and `(x1, y1)`.
    pub fn new(x0: i16, y0: i16, x1: i16, y1: i16) -> (rect: Rect)
        ensures
            rect == (Rect { x0, y0, x1, y1 }),
    {
        Rect { x0, y0, x1, y1 }
    }
}

} // verus!
