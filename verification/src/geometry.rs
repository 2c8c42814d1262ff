//! Plane geometry on whole coordinates.
//!
//! A coordinate is an `i64`. Sums and differences of two coordinates are
//! formed without overflow as long as both lie within [`COORD_MAX`] of zero,
//! which is what the `in_range` predicates of the types below say.

use vstd::prelude::*;

verus! {

/// The largest magnitude of a coordinate that the arithmetic below accepts:
/// the sum or difference of two such coordinates still fits an `i64`.
pub const COORD_MAX: i64 = 0x3FFF_FFFF_FFFF_FFFF;

/// Whether `c` lies within `COORD_MAX` of zero.
pub open spec fn coord_in_range(c: i64) -> bool {
    -COORD_MAX <= c <= COORD_MAX
}

/// Decides [`coord_in_range`].
pub fn is_coord_in_range(c: i64) -> (ok: bool)
    ensures
        ok == coord_in_range(c),
{
    -COORD_MAX <= c && c <= COORD_MAX
}

/// A position in the plane.
#[derive(Clone, Copy, Debug, PartialEq, Eq, Structural)]
pub struct Point {
    pub x: i64,
    pub y: i64,
}

/// A displacement in the plane.
#[derive(Clone, Copy, Debug, PartialEq, Eq, Structural)]
pub struct Vec2 {
    pub x: i64,
    pub y: i64,
}

/// A width and a height.
#[derive(Clone, Copy, Debug, PartialEq, Eq, Structural)]
pub struct Size {
    pub width: i64,
    pub height: i64,
}

/// Distances by which the four edges of a rectangle are moved outwards.
#[derive(Clone, Copy, Debug, PartialEq, Eq, Structural)]
pub struct Insets {
    pub x0: i64,
    pub y0: i64,
    pub x1: i64,
    pub y1: i64,
}

/// An axis-aligned rectangle, given by its minimum corner `(x0, y0)` and its
/// maximum corner `(x1, y1)`. The minimum edges belong to the rectangle, the
/// maximum edges do not.
#[derive(Clone, Copy, Debug, PartialEq, Eq, Structural)]
pub struct Rect {
    pub x0: i64,
    pub y0: i64,
    pub x1: i64,
    pub y1: i64,
}

impl Point {
    pub open spec fn in_range(self) -> bool {
        coord_in_range(self.x) && coord_in_range(self.y)
    }

    /// The displacement from the origin to `self`.
    pub open spec fn spec_to_vec2(self) -> Vec2 {
        Vec2 { x: self.x, y: self.y }
    }

    pub fn new(x: i64, y: i64) -> (p: Point)
        ensures
            p == (Point { x, y }),
    {
        Point { x, y }
    }

    /// The point `(0, 0)`.
    pub fn origin() -> (p: Point)
        ensures
            p == (Point { x: 0, y: 0 }),
    {
        Point { x: 0, y: 0 }
    }

    /// Decides [`Point::in_range`].
    pub fn is_in_range(&self) -> (ok: bool)
        ensures
            ok == self.in_range(),
    {
        is_coord_in_range(self.x) && is_coord_in_range(self.y)
    }

    #[verifier::when_used_as_spec(spec_to_vec2)]
    pub fn to_vec2(self) -> (v: Vec2)
        ensures
            v == self.spec_to_vec2(),
    {
        Vec2 { x: self.x, y: self.y }
    }
}

impl Vec2 {
    pub open spec fn in_range(self) -> bool {
        coord_in_range(self.x) && coord_in_range(self.y)
    }

    /// The point that `self` leads to from the origin.
    pub open spec fn spec_to_point(self) -> Point {
        Point { x: self.x, y: self.y }
    }

    /// The componentwise difference `self - other`.
    pub open spec fn spec_minus(self, other: Vec2) -> Vec2 {
        Vec2 { x: (self.x - other.x) as i64, y: (self.y - other.y) as i64 }
    }

    pub fn new(x: i64, y: i64) -> (v: Vec2)
        ensures
            v == (Vec2 { x, y }),
    {
        Vec2 { x, y }
    }

    /// The displacement `(0, 0)`.
    pub fn zero() -> (v: Vec2)
        ensures
            v == (Vec2 { x: 0, y: 0 }),
    {
        Vec2 { x: 0, y: 0 }
    }

    /// Decides [`Vec2::in_range`].
    pub fn is_in_range(&self) -> (ok: bool)
        ensures
            ok == self.in_range(),
    {
        is_coord_in_range(self.x) && is_coord_in_range(self.y)
    }

    #[verifier::when_used_as_spec(spec_to_point)]
    pub fn to_point(self) -> (p: Point)
        ensures
            p == self.spec_to_point(),
    {
        Point { x: self.x, y: self.y }
    }

    /// `self - other`, component by component.
    pub fn minus(self, other: Vec2) -> (v: Vec2)
        requires
            self.in_range(),
            other.in_range(),
        ensures
            v == self.spec_minus(other),
            v.x == self.x - other.x,
            v.y == self.y - other.y,
    {
        Vec2 { x: self.x - other.x, y: self.y - other.y }
    }
}

impl Size {
    pub open spec fn in_range(self) -> bool {
        coord_in_range(self.width) && coord_in_range(self.height)
    }

    pub fn new(width: i64, height: i64) -> (s: Size)
        ensures
            s == (Size { width, height }),
    {
        Size { width, height }
    }

    /// The size with no extent.
    pub fn zero() -> (s: Size)
        ensures
            s == (Size { width: 0, height: 0 }),
    {
        Size { width: 0, height: 0 }
    }

    /// Decides [`Size::in_range`].
    pub fn is_in_range(&self) -> (ok: bool)
        ensures
            ok == self.in_range(),
    {
        is_coord_in_range(self.width) && is_coord_in_range(self.height)
    }
}

impl Insets {
    pub open spec fn in_range(self) -> bool {
        &&& coord_in_range(self.x0)
        &&& coord_in_range(self.y0)
        &&& coord_in_range(self.x1)
        &&& coord_in_range(self.y1)
    }

    /// Insets that move no edge.
    pub fn zero() -> (i: Insets)
        ensures
            i == (Insets { x0: 0, y0: 0, x1: 0, y1: 0 }),
    {
        Insets { x0: 0, y0: 0, x1: 0, y1: 0 }
    }

    /// Decides [`Insets::in_range`].
    pub fn is_in_range(&self) -> (ok: bool)
        ensures
            ok == self.in_range(),
    {
        is_coord_in_range(self.x0) && is_coord_in_range(self.y0) && is_coord_in_range(self.x1)
            && is_coord_in_range(self.y1)
    }
}

impl Rect {
    pub open spec fn in_range(self) -> bool {
        &&& coord_in_range(self.x0)
        &&& coord_in_range(self.y0)
        &&& coord_in_range(self.x1)
        &&& coord_in_range(self.y1)
    }

    /// The rectangle whose minimum corner is `origin` and whose maximum corner
    /// lies `size` further.
    pub open spec fn spec_from_origin_size(origin: Point, size: Size) -> Rect {
        Rect {
            x0: origin.x,
            y0: origin.y,
            x1: (origin.x + size.width) as i64,
            y1: (origin.y + size.height) as i64,
        }
    }

    /// `self` moved by `v`.
    pub open spec fn spec_translate(self, v: Vec2) -> Rect {
        Rect {
            x0: (self.x0 + v.x) as i64,
            y0: (self.y0 + v.y) as i64,
            x1: (self.x1 + v.x) as i64,
            y1: (self.y1 + v.y) as i64,
        }
    }

    /// Whether `point` lies within `self`: on or after the minimum edges and
    /// before the maximum edges.
    pub open spec fn spec_contains(&self, point: Point) -> bool {
        &&& self.x0 <= point.x < self.x1
        &&& self.y0 <= point.y < self.y1
    }

    /// The minimum corner.
    pub open spec fn spec_origin(&self) -> Point {
        Point { x: self.x0, y: self.y0 }
    }

    /// The extent from the minimum corner to the maximum corner.
    pub open spec fn spec_size(self) -> Size {
        Size { width: (self.x1 - self.x0) as i64, height: (self.y1 - self.y0) as i64 }
    }

    pub fn new(x0: i64, y0: i64, x1: i64, y1: i64) -> (r: Rect)
        ensures
            r == (Rect { x0, y0, x1, y1 }),
    {
        Rect { x0, y0, x1, y1 }
    }

    /// The rectangle with all corners at the origin.
    pub fn zero() -> (r: Rect)
        ensures
            r == (Rect { x0: 0, y0: 0, x1: 0, y1: 0 }),
    {
        Rect { x0: 0, y0: 0, x1: 0, y1: 0 }
    }

    /// Decides [`Rect::in_range`].
    pub fn is_in_range(&self) -> (ok: bool)
        ensures
            ok == self.in_range(),
    {
        is_coord_in_range(self.x0) && is_coord_in_range(self.y0) && is_coord_in_range(self.x1)
            && is_coord_in_range(self.y1)
    }

    pub fn from_origin_size(origin: Point, size: Size) -> (r: Rect)
        requires
            origin.in_range(),
            size.in_range(),
        ensures
            r == Rect::spec_from_origin_size(origin, size),
            r.x0 == origin.x,
            r.y0 == origin.y,
            r.x1 == origin.x + size.width,
            r.y1 == origin.y + size.height,
    {
        Rect {
            x0: origin.x,
            y0: origin.y,
            x1: origin.x + size.width,
            y1: origin.y + size.height,
        }
    }

    /// `self` moved by `v`.
    pub fn translate(self, v: Vec2) -> (r: Rect)
        requires
            self.in_range(),
            v.in_range(),
        ensures
            r == self.spec_translate(v),
            r.x0 == self.x0 + v.x,
            r.y0 == self.y0 + v.y,
            r.x1 == self.x1 + v.x,
            r.y1 == self.y1 + v.y,
    {
        Rect { x0: self.x0 + v.x, y0: self.y0 + v.y, x1: self.x1 + v.x, y1: self.y1 + v.y }
    }

    #[verifier::when_used_as_spec(spec_contains)]
    pub fn contains(&self, point: Point) -> (inside: bool)
        ensures
            inside == self.spec_contains(point),
    {
        point.x >= self.x0 && point.x < self.x1 && point.y >= self.y0 && point.y < self.y1
    }

    #[verifier::when_used_as_spec(spec_origin)]
    pub fn origin(&self) -> (p: Point)
        ensures
            p == self.spec_origin(),
    {
        Point { x: self.x0, y: self.y0 }
    }

    /// The extent of `self`. The differences are formed in `i64`, so the
    /// corners must not lie further apart than that type holds.
    pub fn size(&self) -> (s: Size)
        requires
            i64::MIN <= self.x1 - self.x0 <= i64::MAX,
            i64::MIN <= self.y1 - self.y0 <= i64::MAX,
        ensures
            s == self.spec_size(),
            s.width == self.x1 - self.x0,
            s.height == self.y1 - self.y0,
    {
        Size { width: self.x1 - self.x0, height: self.y1 - self.y0 }
    }
}

} // verus!
