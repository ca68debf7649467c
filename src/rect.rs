//! Axis-aligned rectangles with integer coordinates.

use vstd::prelude::*;

verus! {

/// `v` brought into the range of `i64`.
pub open spec fn clamp(v: int) -> int {
    if v < i64::MIN {
        i64::MIN as int
    } else if v > i64::MAX {
        i64::MAX as int
    } else {
        v
    }
}

/// `v` brought into the range of `i64`.
pub fn saturate(v: i128) -> (r: i64)
    ensures
        r == clamp(v as int),
{
    if v < i64::MIN as i128 {
        i64::MIN
    } else if v > i64::MAX as i128 {
        i64::MAX
    } else {
        v as i64
    }
}

/// A rectangle given by its top-left corner and its size; the y axis points
/// down. Coordinates saturate at the bounds of `i64`.
#[derive(Clone, Copy, PartialEq, Eq, Structural, Debug)]
pub struct Rect {
    pub x: i64,
    pub y: i64,
    pub w: u32,
    pub h: u32,
}

impl Rect {
    /// Whether the two rectangles share some area; touching edges do not count.
    pub open spec fn overlaps_with(self, other: Rect) -> bool {
        &&& self.x < other.x + other.w
        &&& other.x < self.x + self.w
        &&& self.y < other.y + other.h
        &&& other.y < self.y + self.h
    }

    /// The rectangle moved by `(dx, dy)`.
    pub open spec fn moved_by(self, dx: int, dy: int) -> Rect {
        Rect {
            x: clamp(self.x + dx) as i64,
            y: clamp(self.y + dy) as i64,
            w: self.w,
            h: self.h,
        }
    }

    pub fn new(x: i64, y: i64, w: u32, h: u32) -> (r: Rect)
        ensures
            r == (Rect { x, y, w, h }),
    {
        Rect { x, y, w, h }
    }

    /// Whether the two rectangles share some area; touching edges do not count.
    pub fn overlaps(&self, other: &Rect) -> (r: bool)
        ensures
            r == self.overlaps_with(*other),
    {
        (self.x as i128) < other.x as i128 + other.w as i128 && (other.x as i128) < self.x as i128
            + self.w as i128 && (self.y as i128) < other.y as i128 + other.h as i128 && (
        other.y as i128) < self.y as i128 + self.h as i128
    }

    /// The rectangle moved by `(dx, dy)`.
    pub fn offset(&self, dx: i64, dy: i64) -> (r: Rect)
        ensures
            r == self.moved_by(dx as int, dy as int),
    {
        Rect {
            x: saturate(self.x as i128 + dx as i128),
            y: saturate(self.y as i128 + dy as i128),
            w: self.w,
            h: self.h,
        }
    }
}

} // verus!
