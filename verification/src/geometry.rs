//! Plain geometry value types: points, sizes, and half-open rectangles.

use vstd::prelude::*;

verus! {

/// A pixel position, possibly off-screen (coordinates may be negative).
#[derive(Clone, Copy, Debug, PartialEq, Eq, Structural)]
pub struct Point {
    pub x: i32,
    pub y: i32,
}

/// Dimensions of a pixel buffer or of the screen.
#[derive(Clone, Copy, Debug, PartialEq, Eq, Structural)]
pub struct Size {
    pub width: u32,
    pub height: u32,
}

/// A half-open rectangle: it covers `x..x+width` by `y..y+height`.
#[derive(Clone, Copy, Debug, PartialEq, Eq, Structural)]
pub struct Rect {
    pub x: i32,
    pub y: i32,
    pub width: u32,
    pub height: u32,
}

impl Point {
    pub fn new(x: i32, y: i32) -> (p: Point)
        ensures
            p.x == x,
            p.y == y,
    {
        Point { x, y }
    }
}

impl Size {
    pub fn new(width: u32, height: u32) -> (s: Size)
        ensures
            s.width == width,
            s.height == height,
    {
        Size { width, height }
    }
}

/// Whether `(px, py)` lies in `r`: inclusive on the low edges, exclusive on
/// the high edges.
pub open spec fn rect_contains(r: Rect, px: int, py: int) -> bool {
    &&& r.x <= px < r.x + r.width
    &&& r.y <= py < r.y + r.height
}

impl Rect {
    pub fn new(x: i32, y: i32, width: u32, height: u32) -> (r: Rect)
        ensures
            r.x == x,
            r.y == y,
            r.width == width,
            r.height == height,
    {
        Rect { x, y, width, height }
    }

    /// The exclusive right edge, `x + width`.
    pub fn right(&self) -> (r: i64)
        ensures
            r == self.x + self.width,
    {
        self.x as i64 + self.width as i64
    }

    /// The exclusive bottom edge, `y + height`.
    pub fn bottom(&self) -> (r: i64)
        ensures
            r == self.y + self.height,
    {
        self.y as i64 + self.height as i64
    }

    /// Point-in-rectangle test, inclusive on the lower bound and exclusive
    /// on `x + width` and `y + height`.
    pub fn contains_point(&self, p: Point) -> (r: bool)
        ensures
            r == rect_contains(*self, p.x as int, p.y as int),
    {
        let px = p.x as i64;
        let py = p.y as i64;
        px >= self.x as i64 && px < self.x as i64 + self.width as i64 && py >= self.y as i64
            && py < self.y as i64 + self.height as i64
    }
}

} // verus!
