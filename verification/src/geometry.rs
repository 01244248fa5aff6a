//! Symbol geometry as the decoding engine reports it: integer pixel
//! coordinates and the two opposite corners of a detected symbol.

use vstd::prelude::*;

verus! {

/// A pixel coordinate reported by the decoding engine.
#[derive(Debug, PartialEq, Eq, Clone, Copy, Structural)]
pub struct Point {
    pub x: i32,
    pub y: i32,
}

impl Point {
    /// Make a point from its coordinates.
    pub fn new(x: i32, y: i32) -> (r: Point)
        ensures
            r.x == x,
            r.y == y,
    {
        Point { x, y }
    }

    /// The horizontal coordinate.
    pub fn x(&self) -> (r: i32)
        ensures
            r == self.x,
    {
        self.x
    }

    /// The vertical coordinate.
    pub fn y(&self) -> (r: i32)
        ensures
            r == self.y,
    {
        self.y
    }
}

/// Where a symbol sits in the image: the two opposite corners the engine
/// reports.
#[derive(Debug, PartialEq, Eq, Clone, Copy, Structural)]
pub struct Position {
    pub top_left: Point,
    pub bottom_right: Point,
}

impl Position {
    /// The symbol's top-left corner.
    pub fn top_left(&self) -> (r: Point)
        ensures
            r == self.top_left,
    {
        self.top_left
    }

    /// The symbol's bottom-right corner.
    pub fn bottom_right(&self) -> (r: Point)
        ensures
            r == self.bottom_right,
    {
        self.bottom_right
    }
}

/// The four corners of a symbol, derived from the two opposite corners the
/// engine reports by treating the quadrilateral as an axis-aligned rectangle:
/// each missing corner combines the x of one reported corner with the y of
/// the other. Order: top-left, top-right, bottom-right, bottom-left.
pub open spec fn spec_corners(p: Position) -> Seq<Point> {
    seq![
        p.top_left,
        Point { x: p.bottom_right.x, y: p.top_left.y },
        p.bottom_right,
        Point { x: p.top_left.x, y: p.bottom_right.y },
    ]
}

} // verus!
