//! Points, monitor rectangles, and the containment and edge predicates the
//! confinement logic is built on.

use vstd::prelude::*;

verus! {

/// A point in virtual-screen coordinates.
#[derive(Clone, Copy, PartialEq, Eq, Structural, Debug)]
pub struct Point {
    pub x: i32,
    pub y: i32,
}

/// A monitor's bounding rectangle in virtual-screen coordinates.
/// `right` and `bottom` are exclusive.
#[derive(Clone, Copy, PartialEq, Eq, Structural, Debug)]
pub struct Rect {
    pub left: i32,
    pub top: i32,
    pub right: i32,
    pub bottom: i32,
}

/// An opaque identifier the platform assigns to a monitor. It is a weak
/// reference into platform state; the library never interprets it.
#[derive(Clone, Copy, PartialEq, Eq, Structural, Debug)]
pub struct MonitorId(pub u64);

/// One enumerated monitor: its platform identifier and bounding rectangle.
#[derive(Clone, Copy, PartialEq, Eq, Structural, Debug)]
pub struct MonitorGeometry {
    pub id: MonitorId,
    pub rect: Rect,
}

impl Rect {
    /// A monitor rectangle is non-degenerate.
    pub open spec fn well_formed(self) -> bool {
        self.left < self.right && self.top < self.bottom
    }

    /// Width in pixels.
    pub fn width(&self) -> (w: i64)
        ensures
            w == self.right - self.left,
    {
        (self.right as i64) - (self.left as i64)
    }

    /// Height in pixels.
    pub fn height(&self) -> (h: i64)
        ensures
            h == self.bottom - self.top,
    {
        (self.bottom as i64) - (self.top as i64)
    }
}

impl MonitorGeometry {
    /// An enumerated monitor carries a non-degenerate rectangle.
    pub open spec fn well_formed(self) -> bool {
        self.rect.well_formed()
    }
}

/// Half-open containment: the point lies inside the rectangle.
pub open spec fn in_rect(p: Point, r: Rect) -> bool {
    r.left <= p.x < r.right && r.top <= p.y < r.bottom
}

/// The point is within 1 unit of one of the rectangle's four boundary lines.
pub open spec fn at_edge(p: Point, r: Rect) -> bool {
    p.x <= r.left + 1 || p.x >= r.right - 1 || p.y <= r.top + 1 || p.y >= r.bottom - 1
}

/// Half-open containment test (`left <= x < right`, `top <= y < bottom`).
pub fn point_in_rect(p: &Point, r: &Rect) -> (b: bool)
    ensures
        b == in_rect(*p, *r),
{
    p.x >= r.left && p.x < r.right && p.y >= r.top && p.y < r.bottom
}

/// Whether the point has reached the rectangle's boundary, with a 1-unit
/// margin on each of the four sides.
pub fn at_rect_edge(p: &Point, r: &Rect) -> (b: bool)
    requires
        r.well_formed(),
    ensures
        b == at_edge(*p, *r),
{
    p.x <= r.left + 1 || p.x >= r.right - 1 || p.y <= r.top + 1 || p.y >= r.bottom - 1
}

} // verus!
