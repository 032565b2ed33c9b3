//! Points and rectangles on the bounded integer grid that sprites are drawn on.
//!
//! Coordinates and sizes are kept within half of the `i32` range, so that a
//! corner plus a size, or a point plus a displacement of a point, never leaves
//! `i32`. Every constructor brings what it is given onto that grid by clamping;
//! nothing here overflows and nothing panics.

use vstd::prelude::*;

verus! {

/// Largest coordinate of a point or of a rectangle's corner.
pub const MAX_POSITION: i32 = 0x3FFF_FFFF;

/// Smallest coordinate of a point or of a rectangle's corner.
pub const MIN_POSITION: i32 = -0x4000_0000;

/// Largest width or height of a rectangle.
pub const MAX_SIZE: u32 = 0x3FFF_FFFF;

/// The coordinate on the grid that is nearest to `v`.
pub open spec fn clamp_position(v: int) -> int {
    if v > MAX_POSITION {
        MAX_POSITION as int
    } else if v < MIN_POSITION {
        MIN_POSITION as int
    } else {
        v
    }
}

/// The width or height that stands for `v`: at least 1, since no rectangle
/// is empty, and at most `MAX_SIZE`.
pub open spec fn clamp_size(v: int) -> int {
    if v < 1 {
        1
    } else if v > MAX_SIZE {
        MAX_SIZE as int
    } else {
        v
    }
}

/// Brings a coordinate computed in 64 bits onto the grid.
pub fn position_from(v: i64) -> (r: i32)
    ensures
        r == clamp_position(v as int),
        MIN_POSITION <= r <= MAX_POSITION,
{
    if v > MAX_POSITION as i64 {
        MAX_POSITION
    } else if v < MIN_POSITION as i64 {
        MIN_POSITION
    } else {
        v as i32
    }
}

/// Brings a width or height into `1 ..= MAX_SIZE`.
pub fn size_from(v: u32) -> (r: u32)
    ensures
        r == clamp_size(v as int),
        1 <= r <= MAX_SIZE,
{
    if v == 0 {
        1
    } else if v > MAX_SIZE {
        MAX_SIZE
    } else {
        v
    }
}

/// A point, or a displacement, in whole units.
#[derive(Clone, Copy, Debug, PartialEq, Eq, Structural)]
pub struct Point {
    pub x: i32,
    pub y: i32,
}

impl Point {
    /// Both coordinates lie on the grid.
    pub open spec fn wf(self) -> bool {
        &&& MIN_POSITION <= self.x <= MAX_POSITION
        &&& MIN_POSITION <= self.y <= MAX_POSITION
    }

    /// The point on the grid nearest to `(x, y)`.
    pub open spec fn spec_new(x: int, y: int) -> Point {
        Point { x: clamp_position(x) as i32, y: clamp_position(y) as i32 }
    }

    /// This point moved by `(dx, dy)`, and brought back onto the grid where
    /// the move would leave it.
    pub open spec fn spec_offset(self, dx: int, dy: int) -> Point {
        Point::spec_new(self.x + dx, self.y + dy)
    }

    /// Both coordinates are zero.
    pub open spec fn is_zero(self) -> bool {
        self.x == 0 && self.y == 0
    }

    /// The point on the grid nearest to `(x, y)`.
    pub fn new(x: i32, y: i32) -> (p: Point)
        ensures
            p == Point::spec_new(x as int, y as int),
            p.x == clamp_position(x as int),
            p.y == clamp_position(y as int),
            p.wf(),
    {
        Point { x: position_from(x as i64), y: position_from(y as i64) }
    }

    /// This point moved by `(x, y)`. A coordinate that the move would carry
    /// off the grid stops at the grid's edge.
    pub fn offset(self, x: i32, y: i32) -> (p: Point)
        ensures
            p == self.spec_offset(x as int, y as int),
            p.x == clamp_position(self.x + x),
            p.y == clamp_position(self.y + y),
            p.wf(),
    {
        Point {
            x: position_from(self.x as i64 + x as i64),
            y: position_from(self.y as i64 + y as i64),
        }
    }

    /// The horizontal coordinate.
    pub fn x(self) -> (x: i32)
        ensures
            x == self.x,
    {
        self.x
    }

    /// The vertical coordinate.
    pub fn y(self) -> (y: i32)
        ensures
            y == self.y,
    {
        self.y
    }

    /// Tells whether both coordinates lie on the grid.
    pub fn is_wf(self) -> (b: bool)
        ensures
            b == self.wf(),
    {
        MIN_POSITION <= self.x && self.x <= MAX_POSITION && MIN_POSITION <= self.y && self.y
            <= MAX_POSITION
    }
}

/// A rectangle that is never empty: its upper left corner and its size.
#[derive(Clone, Copy, Debug, PartialEq, Eq, Structural)]
pub struct Rect {
    pub x: i32,
    pub y: i32,
    pub w: u32,
    pub h: u32,
}

impl Rect {
    /// The corner lies on the grid, and width and height are in
    /// `1 ..= MAX_SIZE`.
    pub open spec fn wf(self) -> bool {
        &&& MIN_POSITION <= self.x <= MAX_POSITION
        &&& MIN_POSITION <= self.y <= MAX_POSITION
        &&& 1 <= self.w <= MAX_SIZE
        &&& 1 <= self.h <= MAX_SIZE
    }

    /// The rectangle with its corner nearest to `(x, y)` and its size nearest
    /// to `width` by `height`.
    pub open spec fn spec_new(x: int, y: int, width: int, height: int) -> Rect {
        Rect {
            x: clamp_position(x) as i32,
            y: clamp_position(y) as i32,
            w: clamp_size(width) as u32,
            h: clamp_size(height) as u32,
        }
    }

    /// The rectangle of size `width` by `height` whose middle is `center`.
    /// Halves round down, so with an odd size the middle is the unit left of
    /// and above the true middle.
    pub open spec fn spec_from_center(center: Point, width: int, height: int) -> Rect {
        Rect::spec_new(
            clamp_position(center.x as int) - clamp_size(width) / 2,
            clamp_position(center.y as int) - clamp_size(height) / 2,
            width,
            height,
        )
    }

    /// The rectangle with its upper left corner at `(x, y)`. A coordinate off
    /// the grid is moved to the grid's edge, a size of 0 becomes 1, and a size
    /// above `MAX_SIZE` becomes `MAX_SIZE`.
    pub fn new(x: i32, y: i32, width: u32, height: u32) -> (r: Rect)
        ensures
            r == Rect::spec_new(x as int, y as int, width as int, height as int),
            r.x == clamp_position(x as int),
            r.y == clamp_position(y as int),
            r.w == clamp_size(width as int),
            r.h == clamp_size(height as int),
            r.wf(),
    {
        Rect {
            x: position_from(x as i64),
            y: position_from(y as i64),
            w: size_from(width),
            h: size_from(height),
        }
    }

    /// The rectangle of the given size around `center`.
    pub fn from_center(center: Point, width: u32, height: u32) -> (r: Rect)
        ensures
            r == Rect::spec_from_center(center, width as int, height as int),
            r.w == clamp_size(width as int),
            r.h == clamp_size(height as int),
            r.x == clamp_position(clamp_position(center.x as int) - r.w / 2),
            r.y == clamp_position(clamp_position(center.y as int) - r.h / 2),
            r.wf(),
    {
        let w: u32 = size_from(width);
        let h: u32 = size_from(height);
        let cx: i64 = position_from(center.x as i64) as i64;
        let cy: i64 = position_from(center.y as i64) as i64;
        Rect {
            x: position_from(cx - (w / 2) as i64),
            y: position_from(cy - (h / 2) as i64),
            w,
            h,
        }
    }

    /// The horizontal coordinate of the left side.
    pub fn x(&self) -> (x: i32)
        ensures
            x == self.x,
    {
        self.x
    }

    /// The vertical coordinate of the upper side.
    pub fn y(&self) -> (y: i32)
        ensures
            y == self.y,
    {
        self.y
    }

    /// The width.
    pub fn width(&self) -> (w: u32)
        ensures
            w == self.w,
    {
        self.w
    }

    /// The height.
    pub fn height(&self) -> (h: u32)
        ensures
            h == self.h,
    {
        self.h
    }

    /// Width and height.
    pub fn size(&self) -> (s: (u32, u32))
        ensures
            s == (self.w, self.h),
    {
        (self.w, self.h)
    }

    /// Tells whether the corner lies on the grid and the size is in range.
    pub fn is_wf(&self) -> (b: bool)
        ensures
            b == self.wf(),
    {
        MIN_POSITION <= self.x && self.x <= MAX_POSITION && MIN_POSITION <= self.y && self.y
            <= MAX_POSITION && 1 <= self.w && self.w <= MAX_SIZE && 1 <= self.h && self.h
            <= MAX_SIZE
    }
}

} // verus!
