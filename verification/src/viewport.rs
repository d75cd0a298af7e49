//! The visible area, which the caller measures anew for every tick.

use vstd::prelude::*;
use crate::tuning::VIEW_LIMIT;

verus! {

/// The width and height of the visible area. Its middle is the origin: it
/// reaches from `-width / 2` to `width / 2` and from `-height / 2` to
/// `height / 2`.
#[derive(Clone, Copy, Debug, PartialEq, Eq, Structural)]
pub struct Viewport {
    pub width: i64,
    pub height: i64,
}

impl Viewport {
    /// A visible area is well formed when neither side is negative or
    /// above `VIEW_LIMIT`.
    pub open spec fn wf(self) -> bool {
        0 <= self.width <= VIEW_LIMIT && 0 <= self.height <= VIEW_LIMIT
    }

    /// The height of the top edge.
    pub open spec fn top(self) -> int {
        self.height as int / 2
    }

    /// The height of the bottom edge.
    pub open spec fn bottom(self) -> int {
        -(self.height as int / 2)
    }

    /// The horizontal position of the right edge.
    pub open spec fn right(self) -> int {
        self.width as int / 2
    }

    /// The horizontal position of the left edge.
    pub open spec fn left(self) -> int {
        -(self.width as int / 2)
    }

    /// A visible area of the given size, or nothing if a side is negative
    /// or above `VIEW_LIMIT`.
    pub fn new(width: i64, height: i64) -> (made: Option<Viewport>)
        ensures
            made.is_some() <==> 0 <= width <= VIEW_LIMIT && 0 <= height <= VIEW_LIMIT,
            made.is_some() ==> made.unwrap() == (Viewport { width, height }),
            made.is_some() ==> made.unwrap().wf(),
    {
        if 0 <= width && width <= VIEW_LIMIT && 0 <= height && height <= VIEW_LIMIT {
            Some(Viewport { width, height })
        } else {
            None
        }
    }

    /// Whether the visible area is well formed.
    pub fn is_valid(&self) -> (valid: bool)
        ensures
            valid == self.wf(),
    {
        0 <= self.width && self.width <= VIEW_LIMIT && 0 <= self.height && self.height
            <= VIEW_LIMIT
    }

    /// The height of the top edge.
    pub fn half_height(&self) -> (half: i64)
        requires
            self.wf(),
        ensures
            half == self.top(),
    {
        self.height / 2
    }

    /// The horizontal position of the right edge.
    pub fn half_width(&self) -> (half: i64)
        requires
            self.wf(),
        ensures
            half == self.right(),
    {
        self.width / 2
    }
}

} // verus!
