//! Geometry primitives and small helpers.
//!
//! All lengths are integers in micrometres, so containment tests are exact.
use rand::Rng;
use vstd::prelude::*;

verus! {

/// Largest magnitude, in micrometres, that a coordinate may take in a
/// containment test; it keeps every squared distance inside `i128`.
pub const COORDINATE_LIMIT: i64 = 1_000_000_000_000_000;

/// Largest die dimension or translation, in micrometres, that the layout
/// engine accepts.
pub const LENGTH_LIMIT: i64 = 1_000_000_000;

/// `v` is a coordinate value that the containment tests accept.
pub open spec fn in_range(v: int) -> bool {
    -COORDINATE_LIMIT <= v <= COORDINATE_LIMIT
}

/// A point in the plane, in micrometres.
#[derive(Clone, Copy, Debug, PartialEq, Eq, Structural)]
pub struct Coordinate {
    pub x: i64,
    pub y: i64,
}

/// An axis-aligned rectangle held by its four corners.
#[derive(Clone, Copy, Debug, PartialEq, Eq, Structural)]
pub struct Rectangle {
    pub bl: Coordinate,
    pub br: Coordinate,
    pub tl: Coordinate,
    pub tr: Coordinate,
}

pub open spec fn square(v: int) -> int {
    v * v
}

impl Coordinate {
    pub open spec fn in_range(self) -> bool {
        in_range(self.x as int) && in_range(self.y as int)
    }

    /// Squared Euclidean distance between two points.
    pub open spec fn spec_distance(self, other: Coordinate) -> int {
        square(other.x - self.x) + square(other.y - self.y)
    }

    /// The point lies on or inside the circle of `radius` around `center`.
    pub open spec fn spec_within_radius(self, center: Coordinate, radius: int) -> bool {
        center.spec_distance(self) <= square(radius)
    }

    /// The point lies in the closed rectangle spanned by `rect`'s corners.
    pub open spec fn spec_within_rectangle(self, rect: Rectangle) -> bool {
        rect.bl.x <= self.x <= rect.br.x && rect.bl.y <= self.y <= rect.tl.y
    }

    /// Squared Euclidean distance to `coord`; the square root is never needed
    /// by the containment tests.
    pub fn distance(&self, coord: &Coordinate) -> (r: i128)
        requires
            self.in_range(),
            coord.in_range(),
        ensures
            r == self.spec_distance(*coord),
    {
        let dx = coord.x as i128 - self.x as i128;
        let dy = coord.y as i128 - self.y as i128;
        assert(dx * dx <= 4_000_000_000_000_000_000_000_000_000_000) by (nonlinear_arith)
            requires
                -2_000_000_000_000_000 <= dx <= 2_000_000_000_000_000,
        ;
        assert(dy * dy <= 4_000_000_000_000_000_000_000_000_000_000) by (nonlinear_arith)
            requires
                -2_000_000_000_000_000 <= dy <= 2_000_000_000_000_000,
        ;
        assert(0 <= dx * dx && 0 <= dy * dy) by (nonlinear_arith);
        dx * dx + dy * dy
    }

    pub fn within_radius(&self, center: &Coordinate, radius: i64) -> (r: bool)
        requires
            self.in_range(),
            center.in_range(),
            in_range(radius as int),
        ensures
            r == self.spec_within_radius(*center, radius as int),
    {
        let rr = radius as i128;
        assert(rr * rr <= 1_000_000_000_000_000_000_000_000_000_000) by (nonlinear_arith)
            requires
                -1_000_000_000_000_000 <= rr <= 1_000_000_000_000_000,
        ;
        assert(0 <= rr * rr) by (nonlinear_arith);
        center.distance(self) <= rr * rr
    }

    pub fn within_rectangle(&self, rectangle: &Rectangle) -> (r: bool)
        ensures
            r == self.spec_within_rectangle(*rectangle),
    {
        rectangle.bl.x <= self.x && self.x <= rectangle.br.x && rectangle.bl.y <= self.y
            && self.y <= rectangle.tl.y
    }
}

impl Rectangle {
    /// The rectangle with bottom-left corner `bl` and the given extent.
    pub open spec fn spec_new(bl: Coordinate, width: int, height: int) -> Rectangle {
        Rectangle {
            bl,
            br: Coordinate { x: (bl.x + width) as i64, y: bl.y },
            tl: Coordinate { x: bl.x, y: (bl.y + height) as i64 },
            tr: Coordinate { x: (bl.x + width) as i64, y: (bl.y + height) as i64 },
        }
    }

    pub open spec fn in_range(self) -> bool {
        self.bl.in_range() && self.br.in_range() && self.tl.in_range() && self.tr.in_range()
    }

    /// (every corner is within the circle, some corner is within the circle)
    pub open spec fn spec_within_radius(self, center: Coordinate, radius: int) -> (bool, bool) {
        let bl = self.bl.spec_within_radius(center, radius);
        let br = self.br.spec_within_radius(center, radius);
        let tl = self.tl.spec_within_radius(center, radius);
        let tr = self.tr.spec_within_radius(center, radius);
        (bl && br && tl && tr, bl || br || tl || tr)
    }

    /// (every corner is within `other`, some corner is within `other`)
    pub open spec fn spec_within_rectangle(self, other: Rectangle) -> (bool, bool) {
        let bl = self.bl.spec_within_rectangle(other);
        let br = self.br.spec_within_rectangle(other);
        let tl = self.tl.spec_within_rectangle(other);
        let tr = self.tr.spec_within_rectangle(other);
        (bl && br && tl && tr, bl || br || tl || tr)
    }

    pub fn new(bl: &Coordinate, width: i64, height: i64) -> (r: Rectangle)
        requires
            in_range(bl.x as int),
            in_range(bl.y as int),
            in_range(bl.x + width),
            in_range(bl.y + height),
        ensures
            r == Rectangle::spec_new(*bl, width as int, height as int),
            r.in_range(),
    {
        let right = bl.x + width;
        let top = bl.y + height;
        Rectangle {
            bl: *bl,
            br: Coordinate { x: right, y: bl.y },
            tl: Coordinate { x: bl.x, y: top },
            tr: Coordinate { x: right, y: top },
        }
    }

    /// Tests the four corners against a circle.
    pub fn within_radius(&self, center: &Coordinate, radius: i64) -> (r: (bool, bool))
        requires
            self.in_range(),
            center.in_range(),
            in_range(radius as int),
        ensures
            r == self.spec_within_radius(*center, radius as int),
    {
        let bl = self.bl.within_radius(center, radius);
        let br = self.br.within_radius(center, radius);
        let tl = self.tl.within_radius(center, radius);
        let tr = self.tr.within_radius(center, radius);
        (bl && br && tl && tr, bl || br || tl || tr)
    }

    /// Tests the four corners against another rectangle.
    pub fn within_rectangle(&self, other: &Rectangle) -> (r: (bool, bool))
        ensures
            r == self.spec_within_rectangle(*other),
    {
        let bl = self.bl.within_rectangle(other);
        let br = self.br.within_rectangle(other);
        let tl = self.tl.within_rectangle(other);
        let tr = self.tr.within_rectangle(other);
        (bl && br && tl && tr, bl || br || tl || tr)
    }
}

/// A uniformly drawn integer in `min..=max`.
///
/// Relies on rand's `Rng::gen_range` over a `RangeInclusive` on the thread
/// generator: the value lies in the closed range, and the call panics on an
/// empty range, which `requires` rules out.
#[verifier::external_body]
pub fn random(min: usize, max: usize) -> (r: usize)
    requires
        min <= max,
    ensures
        min <= r <= max,
{
    rand::thread_rng().gen_range(min..=max)
}

/// `min(a, b)` when `cond` holds, else `a`.
pub open spec fn spec_min_if(cond: bool, a: i64, b: i64) -> i64 {
    if cond && b < a {
        b
    } else {
        a
    }
}

pub fn min_if(cond: bool, a: i64, b: i64) -> (r: i64)
    ensures
        r == spec_min_if(cond, a, b),
{
    if cond && b < a {
        b
    } else {
        a
    }
}

} // verus!
