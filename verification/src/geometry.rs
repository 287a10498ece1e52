//! Fixed-point 2D vectors.
//!
//! All coordinates are signed 64-bit fixed-point numbers with 16 fractional
//! bits: `FP_ONE` units make one pixel, and unit-length headings have
//! components in `[-FP_ONE, FP_ONE]`. Every operation is exact integer
//! arithmetic, so contracts can pin results down to the last unit.
use vstd::prelude::*;

verus! {

/// One pixel (and the length of a unit heading component) in fixed-point
/// units: 2^16.
pub const FP_ONE: i64 = 65536;

/// Magnitude bound under which the squared-distance and component-wise
/// arithmetic below is free of 64-bit overflow (2^29 units = 8192 pixels,
/// far beyond the arena).
pub const COORD_LIMIT: i64 = 536870912;

/// A 2D point or direction in fixed-point coordinates.
#[derive(Clone, Copy, PartialEq, Eq, Structural, Debug)]
pub struct Vec2 {
    pub x: i64,
    pub y: i64,
}

impl Vec2 {
    /// Both components are small enough for distance arithmetic to fit
    /// in an `i64`.
    pub open spec fn bounded(self) -> bool {
        -COORD_LIMIT <= self.x <= COORD_LIMIT && -COORD_LIMIT <= self.y <= COORD_LIMIT
    }

    /// A heading stays inside the unit box: both components within
    /// `[-FP_ONE, FP_ONE]`.
    pub open spec fn unit_box(self) -> bool {
        -FP_ONE <= self.x <= FP_ONE && -FP_ONE <= self.y <= FP_ONE
    }

    /// Mathematical squared Euclidean distance, over unbounded integers.
    pub open spec fn spec_dist_sqr(self, other: Vec2) -> int {
        (self.x - other.x) * (self.x - other.x) + (self.y - other.y) * (self.y - other.y)
    }

    pub fn new(x: i64, y: i64) -> (r: Vec2)
        ensures
            r.x == x,
            r.y == y,
    {
        Vec2 { x, y }
    }

    /// Component-wise sum.
    pub fn plus(self, other: Vec2) -> (r: Vec2)
        requires
            i64::MIN <= self.x + other.x <= i64::MAX,
            i64::MIN <= self.y + other.y <= i64::MAX,
        ensures
            r.x == self.x + other.x,
            r.y == self.y + other.y,
    {
        Vec2 { x: self.x + other.x, y: self.y + other.y }
    }

    /// Component-wise difference.
    pub fn minus(self, other: Vec2) -> (r: Vec2)
        requires
            i64::MIN <= self.x - other.x <= i64::MAX,
            i64::MIN <= self.y - other.y <= i64::MAX,
        ensures
            r.x == self.x - other.x,
            r.y == self.y - other.y,
    {
        Vec2 { x: self.x - other.x, y: self.y - other.y }
    }

    /// Scaling by an integer factor.
    pub fn times(self, k: i64) -> (r: Vec2)
        requires
            i64::MIN <= self.x * k <= i64::MAX,
            i64::MIN <= self.y * k <= i64::MAX,
        ensures
            r.x == self.x * k,
            r.y == self.y * k,
    {
        Vec2 { x: self.x * k, y: self.y * k }
    }

    /// Squared Euclidean distance, used by all collision checks so that no
    /// square root is ever needed.
    pub fn dist_sqr(self, other: Vec2) -> (r: i64)
        requires
            self.bounded(),
            other.bounded(),
        ensures
            r == self.spec_dist_sqr(other),
    {
        let dx: i64 = self.x - other.x;
        let dy: i64 = self.y - other.y;
        proof {
            assert(0 <= dx * dx <= 0x1000_0000_0000_0000 && 0 <= dy * dy
                <= 0x1000_0000_0000_0000) by (nonlinear_arith)
                requires
                    -0x4000_0000 <= dx <= 0x4000_0000,
                    -0x4000_0000 <= dy <= 0x4000_0000,
            ;
        }
        dx * dx + dy * dy
    }
}

} // verus!
