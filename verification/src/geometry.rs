//! Rectangles and points on the integer plane.

use vstd::prelude::*;

verus! {

/// Area of a `width` by `height` rectangle, in square pixels.
///
/// The product has to fit the result type.
pub fn area(width: u32, height: u32) -> (a: u32)
    requires
        width * height <= u32::MAX,
    ensures
        a == width * height,
{
    width * height
}

/// A point of the plane.
#[derive(Clone, Copy, Debug, PartialEq, Eq, Structural)]
pub struct Point {
    pub x: i32,
    pub y: i32,
}

/// Where a point lies with respect to the two axes.
#[derive(Clone, Copy, Debug, PartialEq, Eq, Structural)]
pub enum Position {
    /// On the x axis, at the given `x`.
    OnXAxis(i32),
    /// On the y axis and off the x axis, at the given `y`.
    OnYAxis(i32),
    /// On neither axis, at the given `x` and `y`.
    OffAxes(i32, i32),
}

impl Point {
    /// The position of a point: the x axis is tried first, so the origin
    /// counts as lying on it.
    pub open spec fn spec_position(self) -> Position {
        if self.y == 0 {
            Position::OnXAxis(self.x)
        } else if self.x == 0 {
            Position::OnYAxis(self.y)
        } else {
            Position::OffAxes(self.x, self.y)
        }
    }

    /// Tells on which axis the point lies, if on any.
    pub fn position(&self) -> (p: Position)
        ensures
            p == self.spec_position(),
    {
        match *self {
            Point { x, y: 0 } => Position::OnXAxis(x),
            Point { x: 0, y } => Position::OnYAxis(y),
            Point { x, y } => Position::OffAxes(x, y),
        }
    }
}

} // verus!
