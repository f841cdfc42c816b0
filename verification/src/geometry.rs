//! Integer rectangles, sizes and points in device pixels.

use vstd::prelude::*;

verus! {

/// A point in client coordinates.
#[derive(Clone, Copy, Debug, PartialEq, Eq, Structural, Default)]
pub struct Point {
    pub x: i32,
    pub y: i32,
}

impl Point {
    /// The point `(x, y)`.
    pub fn new(x: i32, y: i32) -> (p: Point)
        ensures
            p.x == x,
            p.y == y,
    {
        Point { x, y }
    }
}

/// A width and a height.
#[derive(Clone, Copy, Debug, PartialEq, Eq, Structural, Default)]
pub struct Size {
    pub width: i32,
    pub height: i32,
}

impl Size {
    /// The size `width` by `height`.
    pub fn new(width: i32, height: i32) -> (s: Size)
        ensures
            s.width == width,
            s.height == height,
    {
        Size { width, height }
    }
}

/// A rectangle given by its edges; `right` and `bottom` are exclusive.
#[derive(Clone, Copy, Debug, PartialEq, Eq, Structural, Default)]
pub struct Rect {
    pub left: i32,
    pub top: i32,
    pub right: i32,
    pub bottom: i32,
}

impl Rect {
    /// The width, as a mathematical integer.
    pub open spec fn spec_width(self) -> int {
        self.right - self.left
    }

    /// The height, as a mathematical integer.
    pub open spec fn spec_height(self) -> int {
        self.bottom - self.top
    }

    /// Whether both extents fit an `i32`.
    pub open spec fn extents_fit(self) -> bool {
        i32::MIN <= self.spec_width() <= i32::MAX && i32::MIN <= self.spec_height() <= i32::MAX
    }

    /// The rectangle with the given edges.
    pub fn new(left: i32, top: i32, right: i32, bottom: i32) -> (r: Rect)
        ensures
            r == (Rect { left, top, right, bottom }),
    {
        Rect { left, top, right, bottom }
    }

    /// The rectangle of `size` at the origin.
    pub fn from_size(size: Size) -> (r: Rect)
        ensures
            r == (Rect { left: 0, top: 0, right: size.width, bottom: size.height }),
    {
        Rect { left: 0, top: 0, right: size.width, bottom: size.height }
    }

    /// `right - left`.
    pub fn width(&self) -> (w: i32)
        requires
            self.extents_fit(),
        ensures
            w == self.spec_width(),
    {
        self.right - self.left
    }

    /// `bottom - top`.
    pub fn height(&self) -> (h: i32)
        requires
            self.extents_fit(),
        ensures
            h == self.spec_height(),
    {
        self.bottom - self.top
    }

    /// Whether the rectangle covers no pixel.
    pub fn is_empty(&self) -> (b: bool)
        ensures
            b == (self.right <= self.left || self.bottom <= self.top),
    {
        self.right <= self.left || self.bottom <= self.top
    }
}

} // verus!
