//! Whole-pixel geometry of the canvas.
//!
//! Every length is a whole number of canvas units. Positions that are derived
//! from grid coordinates are 64 bits wide, so that scaling a 32-bit grid
//! coordinate and shifting it by a footprint never leaves the type.

use vstd::prelude::*;

verus! {

/// A displacement on the canvas.
#[derive(Clone, Copy, Debug, PartialEq, Eq, Structural)]
pub struct Vec2 {
    pub x: i64,
    pub y: i64,
}

/// A position on the canvas.
#[derive(Clone, Copy, Debug, PartialEq, Eq, Structural)]
pub struct Point {
    pub x: i64,
    pub y: i64,
}

/// Where the pointer is, in whole pixels of the window.
#[derive(Clone, Copy, Debug, PartialEq, Eq, Structural)]
pub struct PointerPos {
    pub x: i32,
    pub y: i32,
}

/// The extent of an axis-aligned footprint.
#[derive(Clone, Copy, Debug, PartialEq, Eq, Structural)]
pub struct Size {
    pub width: u32,
    pub height: u32,
}

/// An axis-aligned rectangle, given by its top-left corner and its extent.
#[derive(Clone, Copy, Debug, PartialEq, Eq, Structural)]
pub struct Rect {
    origin: Point,
    size: Size,
}

impl View for Vec2 {
    type V = (int, int);

    open spec fn view(&self) -> (int, int) {
        (self.x as int, self.y as int)
    }
}

impl View for Point {
    type V = (int, int);

    open spec fn view(&self) -> (int, int) {
        (self.x as int, self.y as int)
    }
}

impl View for PointerPos {
    type V = (int, int);

    open spec fn view(&self) -> (int, int) {
        (self.x as int, self.y as int)
    }
}

impl Vec2 {
    pub fn new(x: i64, y: i64) -> (v: Vec2)
        ensures
            v.x == x,
            v.y == y,
    {
        Vec2 { x, y }
    }
}

impl Point {
    pub fn new(x: i64, y: i64) -> (p: Point)
        ensures
            p.x == x,
            p.y == y,
    {
        Point { x, y }
    }
}

impl PointerPos {
    pub fn new(x: i32, y: i32) -> (p: PointerPos)
        ensures
            p.x == x,
            p.y == y,
    {
        PointerPos { x, y }
    }
}

impl Size {
    pub fn new(width: u32, height: u32) -> (s: Size)
        ensures
            s.width == width,
            s.height == height,
    {
        Size { width, height }
    }

    /// The same extent after a quarter turn: width and height trade places.
    pub open spec fn transposed(self) -> Size {
        Size { width: self.height, height: self.width }
    }
}

impl Rect {
    /// Top-left corner, as fixed when the rectangle was made.
    pub closed spec fn spec_origin(self) -> Point {
        self.origin
    }

    /// Extent, as fixed when the rectangle was made.
    pub closed spec fn spec_size(self) -> Size {
        self.size
    }

    /// The rectangle of extent `size` whose top-left corner is `origin`.
    pub closed spec fn spec_from_origin_size(origin: Point, size: Size) -> Rect {
        Rect { origin, size }
    }

    pub fn from_origin_size(origin: Point, size: Size) -> (r: Rect)
        ensures
            r == Rect::spec_from_origin_size(origin, size),
            r.spec_origin() == origin,
            r.spec_size() == size,
    {
        Rect { origin, size }
    }

    pub fn origin(&self) -> (p: Point)
        ensures
            p == self.spec_origin(),
    {
        self.origin
    }

    pub fn size(&self) -> (s: Size)
        ensures
            s == self.spec_size(),
    {
        self.size
    }

    /// The same extent with its top-left corner moved to `origin`.
    pub fn with_origin(&self, origin: Point) -> (r: Rect)
        ensures
            r == Rect::spec_from_origin_size(origin, self.spec_size()),
            r.spec_origin() == origin,
            r.spec_size() == self.spec_size(),
    {
        Rect { origin, size: self.size }
    }
}

} // verus!
