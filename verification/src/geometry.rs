//! Integer points, sizes and rectangles in global compositor coordinates.

use vstd::prelude::*;

verus! {

/// A position in global compositor coordinates.
#[derive(Clone, Copy, Debug, PartialEq, Eq, Structural)]
pub struct Point {
    pub x: i32,
    pub y: i32,
}

/// A width and a height.
#[derive(Clone, Copy, Debug, PartialEq, Eq, Structural)]
pub struct Size {
    pub w: i32,
    pub h: i32,
}

/// A placed rectangle: the point of its top-left corner and its size.
#[derive(Clone, Copy, Debug, PartialEq, Eq, Structural)]
pub struct Rect {
    pub loc: Point,
    pub size: Size,
}

/// The value of the `i32` range nearest to `v`.
pub open spec fn clamp_i32(v: int) -> i32 {
    if v < i32::MIN {
        i32::MIN
    } else if v > i32::MAX {
        i32::MAX
    } else {
        v as i32
    }
}

/// Saturates a wide intermediate value into the coordinate range.
pub fn saturate(v: i64) -> (r: i32)
    ensures
        r == clamp_i32(v as int),
{
    if v < -2147483648i64 {
        i32::MIN
    } else if v > 2147483647i64 {
        i32::MAX
    } else {
        v as i32
    }
}

impl Point {
    pub fn new(x: i32, y: i32) -> (r: Point)
        ensures
            r.x == x,
            r.y == y,
    {
        Point { x, y }
    }
}

impl Size {
    pub fn new(w: i32, h: i32) -> (r: Size)
        ensures
            r.w == w,
            r.h == h,
    {
        Size { w, h }
    }
}

impl Rect {
    pub fn new(x: i32, y: i32, w: i32, h: i32) -> (r: Rect)
        ensures
            r == (Rect { loc: Point { x, y }, size: Size { w, h } }),
    {
        Rect { loc: Point { x, y }, size: Size { w, h } }
    }

    /// Whether `p` lies inside the rectangle: the left and top edges belong
    /// to it, the right and bottom edges do not.
    pub open spec fn spec_contains(&self, p: Point) -> bool {
        &&& self.loc.x <= p.x
        &&& p.x < self.loc.x + self.size.w
        &&& self.loc.y <= p.y
        &&& p.y < self.loc.y + self.size.h
    }

    #[verifier::when_used_as_spec(spec_contains)]
    pub fn contains(&self, p: Point) -> (r: bool)
        ensures
            r == self.spec_contains(p),
    {
        let right: i64 = self.loc.x as i64 + self.size.w as i64;
        let bottom: i64 = self.loc.y as i64 + self.size.h as i64;
        self.loc.x <= p.x && (p.x as i64) < right && self.loc.y <= p.y && (p.y as i64) < bottom
    }
}

} // verus!
