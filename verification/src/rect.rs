//! Points and rectangles on the screen plane.
//!
//! Coordinates live in a clamped band of the `i32` range and sizes are kept
//! strictly positive, so every operation here is total: out-of-range inputs
//! are pulled back to the nearest representable value instead of wrapping or
//! panicking.

use vstd::prelude::*;

verus! {

/// The largest coordinate a point or rectangle position may take
/// (half of `i32::MAX`, so that sums of two positions never wrap).
pub const MAX_COORD: i32 = 1073741823;

/// The smallest coordinate a point or rectangle position may take
/// (half of `i32::MIN`).
pub const MIN_COORD: i32 = -1073741824;

/// A position clamped into `[MIN_COORD, MAX_COORD]`.
pub open spec fn spec_clamp_position(v: int) -> int {
    if v > MAX_COORD as int {
        MAX_COORD as int
    } else if v < MIN_COORD as int {
        MIN_COORD as int
    } else {
        v
    }
}

/// A size clamped into `[1, MAX_COORD]`: rectangles are never empty.
pub open spec fn spec_clamp_size(v: int) -> int {
    if v == 0 {
        1
    } else if v > MAX_COORD as int {
        MAX_COORD as int
    } else {
        v
    }
}

/// Clamps a wide intermediate value back into the coordinate band.
fn clamp_position(v: i64) -> (r: i32)
    ensures
        r == spec_clamp_position(v as int),
{
    if v > MAX_COORD as i64 {
        MAX_COORD
    } else if v < MIN_COORD as i64 {
        MIN_COORD
    } else {
        v as i32
    }
}

/// Clamps a requested size into `[1, MAX_COORD]`.
fn clamp_size(v: u32) -> (r: u32)
    ensures
        r == spec_clamp_size(v as int),
{
    if v == 0 {
        1
    } else if v > MAX_COORD as u32 {
        MAX_COORD as u32
    } else {
        v
    }
}

/// A point on the screen plane.
#[derive(Debug, Clone, Copy, PartialEq, Eq, Structural)]
pub struct Point {
    pub x: i32,
    pub y: i32,
}

/// The point reached by shifting `p` by `(dx, dy)`, clamped back into the
/// coordinate band.
pub open spec fn spec_point_offset(p: Point, dx: int, dy: int) -> Point {
    Point { x: spec_clamp_position(p.x + dx) as i32, y: spec_clamp_position(p.y + dy) as i32 }
}

impl Point {
    /// Creates a point from the given coordinates, clamped into the band.
    pub fn new(x: i32, y: i32) -> (p: Point)
        ensures
            p.x == spec_clamp_position(x as int),
            p.y == spec_clamp_position(y as int),
    {
        Point { x: clamp_position(x as i64), y: clamp_position(y as i64) }
    }

    /// Returns the x-coordinate of this point.
    pub fn x(self) -> (r: i32)
        ensures
            r == self.x,
    {
        self.x
    }

    /// Returns the y-coordinate of this point.
    pub fn y(self) -> (r: i32)
        ensures
            r == self.y,
    {
        self.y
    }

    /// Returns a new point shifted by the given x and y values; coordinates
    /// that would leave the band are clamped to its edge.
    pub fn offset(self, x: i32, y: i32) -> (r: Point)
        ensures
            r == spec_point_offset(self, x as int, y as int),
    {
        let nx = clamp_position(self.x as i64 + x as i64);
        let ny = clamp_position(self.y as i64 + y as i64);
        Point { x: nx, y: ny }
    }
}

/// An axis-aligned, never-empty rectangle.
#[derive(Debug, Clone, Copy, PartialEq, Eq, Structural)]
pub struct Rect {
    pub x: i32,
    pub y: i32,
    pub width: u32,
    pub height: u32,
}

/// The rectangle built from a position and size, both clamped.
pub open spec fn spec_rect_new(x: int, y: int, width: int, height: int) -> Rect {
    Rect {
        x: spec_clamp_position(x) as i32,
        y: spec_clamp_position(y) as i32,
        width: spec_clamp_size(width) as u32,
        height: spec_clamp_size(height) as u32,
    }
}

/// The rectangle of the given (clamped) size whose center sits on `center`.
pub open spec fn spec_rect_from_center(center: Point, width: int, height: int) -> Rect {
    let w = spec_clamp_size(width);
    let h = spec_clamp_size(height);
    Rect {
        x: spec_clamp_position(spec_clamp_position(center.x as int) - w / 2) as i32,
        y: spec_clamp_position(spec_clamp_position(center.y as int) - h / 2) as i32,
        width: w as u32,
        height: h as u32,
    }
}

impl Rect {
    /// Creates a rectangle; the position is clamped into the coordinate band
    /// and a zero width or height is replaced with 1.
    pub fn new(x: i32, y: i32, width: u32, height: u32) -> (r: Rect)
        ensures
            r == spec_rect_new(x as int, y as int, width as int, height as int),
    {
        Rect {
            x: clamp_position(x as i64),
            y: clamp_position(y as i64),
            width: clamp_size(width),
            height: clamp_size(height),
        }
    }

    /// Creates a rectangle of the given (clamped) size centered on `center`.
    pub fn from_center(center: Point, width: u32, height: u32) -> (r: Rect)
        ensures
            r == spec_rect_from_center(center, width as int, height as int),
    {
        let w = clamp_size(width);
        let h = clamp_size(height);
        let cx = clamp_position(center.x as i64);
        let cy = clamp_position(center.y as i64);
        Rect {
            x: clamp_position(cx as i64 - (w / 2) as i64),
            y: clamp_position(cy as i64 - (h / 2) as i64),
            width: w,
            height: h,
        }
    }

    /// The horizontal position of this rectangle.
    pub fn x(&self) -> (r: i32)
        ensures
            r == self.x,
    {
        self.x
    }

    /// The vertical position of this rectangle.
    pub fn y(&self) -> (r: i32)
        ensures
            r == self.y,
    {
        self.y
    }

    /// The width of this rectangle.
    pub fn width(&self) -> (r: u32)
        ensures
            r == self.width,
    {
        self.width
    }

    /// The height of this rectangle.
    pub fn height(&self) -> (r: u32)
        ensures
            r == self.height,
    {
        self.height
    }

    /// The width and height of this rectangle.
    pub fn size(&self) -> (r: (u32, u32))
        ensures
            r == (self.width, self.height),
    {
        (self.width, self.height)
    }
}

} // verus!
