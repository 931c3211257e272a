//! Sizes, points and box constraints in whole device-independent pixels.
use vstd::prelude::*;

verus! {

/// Which dimension an intrinsic-size query is about.
#[derive(Clone, Copy, Debug, PartialEq, Eq, Structural)]
pub enum Axis {
    Horizontal,
    Vertical,
}

/// A width and a height; never negative.
#[derive(Clone, Copy, Debug, PartialEq, Eq, Structural)]
pub struct Size {
    pub width: u32,
    pub height: u32,
}

impl Size {
    pub fn new(width: u32, height: u32) -> (r: Size)
        ensures
            r.width == width,
            r.height == height,
    {
        Size { width, height }
    }
}

/// A position in some widget's coordinate space.
#[derive(Clone, Copy, Debug, PartialEq, Eq, Structural)]
pub struct Point {
    pub x: i64,
    pub y: i64,
}

impl Point {
    pub fn new(x: i64, y: i64) -> (r: Point)
        ensures
            r.x == x,
            r.y == y,
    {
        Point { x, y }
    }
}

/// The size envelope a layout pass is asked to respect.
///
/// A negative minimum is the "don't care" sentinel; a maximum of `None` is
/// unbounded.
#[derive(Clone, Copy, Debug, PartialEq, Eq, Structural)]
pub struct BoxConstraints {
    pub min_width: i64,
    pub min_height: i64,
    pub max_width: Option<u32>,
    pub max_height: Option<u32>,
}

/// `v` capped at the maximum `m`, if there is one.
pub open spec fn cap(v: int, m: Option<u32>) -> int {
    match m {
        Some(m) => if v <= m { v } else { m as int },
        None => v,
    }
}

/// Caps a length at an optional maximum.
pub fn cap_len(v: u32, m: Option<u32>) -> (r: u32)
    ensures
        r == cap(v as int, m),
{
    match m {
        Some(m) => if v <= m { v } else { m },
        None => v,
    }
}

/// `s` capped component-wise at the maxima of `bc`.
pub open spec fn capped(s: Size, bc: BoxConstraints) -> Size {
    Size { width: cap(s.width as int, bc.max_width) as u32, height: cap(s.height as int, bc.max_height) as u32 }
}

impl BoxConstraints {
    /// Constraints with the given minimum and maximum sizes.
    pub fn new(min: Size, max: Size) -> (r: BoxConstraints)
        ensures
            r.min_width == min.width,
            r.min_height == min.height,
            r.max_width == Some(max.width),
            r.max_height == Some(max.height),
    {
        BoxConstraints {
            min_width: min.width as i64,
            min_height: min.height as i64,
            max_width: Some(max.width),
            max_height: Some(max.height),
        }
    }

    /// Constraints that only bound the size from above.
    pub fn tight_max(max: Size) -> (r: BoxConstraints)
        ensures
            r.min_width == 0,
            r.min_height == 0,
            r.max_width == Some(max.width),
            r.max_height == Some(max.height),
    {
        BoxConstraints {
            min_width: 0,
            min_height: 0,
            max_width: Some(max.width),
            max_height: Some(max.height),
        }
    }

    pub open spec fn unbound_max_height_spec(&self) -> BoxConstraints {
        BoxConstraints { max_height: None, ..*self }
    }

    /// The same constraints with the height maximum removed.
    pub fn unbound_max_height(&self) -> (r: BoxConstraints)
        ensures
            r == self.unbound_max_height_spec(),
    {
        BoxConstraints { max_height: None, ..*self }
    }

    /// A size capped component-wise at these maxima (minima are not applied).
    pub fn cap_size(&self, s: Size) -> (r: Size)
        ensures
            r == capped(s, *self),
            r.width == cap(s.width as int, self.max_width),
            r.height == cap(s.height as int, self.max_height),
    {
        Size { width: cap_len(s.width, self.max_width), height: cap_len(s.height, self.max_height) }
    }
}

} // verus!
