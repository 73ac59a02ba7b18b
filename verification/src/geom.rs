//! Fixed-point geometry: positions are points with integer coordinates in
//! space milliunits (1000 milliunits = 1 scene unit). Coordinates are kept
//! inside a fixed bound, and out-of-range values are clamped, never rejected.

use vstd::prelude::*;

verus! {

/// Largest coordinate magnitude a stored position may have, in milliunits.
pub const POS_LIMIT: i64 = 1_000_000_000_000;

/// A point (or translation) in space milliunits.
#[derive(Clone, Copy, PartialEq, Eq, Structural, Debug)]
pub struct Point3 {
    pub x: i64,
    pub y: i64,
    pub z: i64,
}

/// `v` forced into `[lo, hi]`.
pub open spec fn spec_clamp_i64(v: int, lo: int, hi: int) -> int {
    if v < lo {
        lo
    } else if v > hi {
        hi
    } else {
        v
    }
}

/// Forces `v` into `[lo, hi]`.
pub fn clamp_i64(v: i64, lo: i64, hi: i64) -> (r: i64)
    requires
        lo <= hi,
    ensures
        r == spec_clamp_i64(v as int, lo as int, hi as int),
{
    if v < lo {
        lo
    } else if v > hi {
        hi
    } else {
        v
    }
}

/// Forces `v` into `[lo, hi]`.
pub fn clamp_u64(v: u64, lo: u64, hi: u64) -> (r: u64)
    requires
        lo <= hi,
    ensures
        r == spec_clamp_i64(v as int, lo as int, hi as int),
{
    if v < lo {
        lo
    } else if v > hi {
        hi
    } else {
        v
    }
}

impl Point3 {
    /// Every coordinate lies within the position bound.
    pub open spec fn in_bounds(self) -> bool {
        &&& -POS_LIMIT <= self.x <= POS_LIMIT
        &&& -POS_LIMIT <= self.y <= POS_LIMIT
        &&& -POS_LIMIT <= self.z <= POS_LIMIT
    }

    /// The point with every coordinate forced into the position bound.
    pub open spec fn spec_clamped(self) -> Point3 {
        (Point3 {
            x: spec_clamp_i64(self.x as int, -POS_LIMIT as int, POS_LIMIT as int) as i64,
            y: spec_clamp_i64(self.y as int, -POS_LIMIT as int, POS_LIMIT as int) as i64,
            z: spec_clamp_i64(self.z as int, -POS_LIMIT as int, POS_LIMIT as int) as i64,
        })
    }

    /// Forces every coordinate into the position bound.
    pub fn clamped(self) -> (r: Point3)
        ensures
            r == self.spec_clamped(),
            r.in_bounds(),
    {
        Point3 {
            x: clamp_i64(self.x, -POS_LIMIT, POS_LIMIT),
            y: clamp_i64(self.y, -POS_LIMIT, POS_LIMIT),
            z: clamp_i64(self.z, -POS_LIMIT, POS_LIMIT),
        }
    }
}

} // verus!
