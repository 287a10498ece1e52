//! Fixed session configuration: radii, arena bounds, timer intervals, turn
//! rates and the growth bonus. Lengths are fixed-point units (`FP_ONE` per
//! pixel), times are microseconds, angular rates are milli-degrees per
//! second.
use vstd::prelude::*;
use crate::geometry::Vec2;

verus! {

/// Radius of one body segment: 5 pixels.
pub const SEGMENT_RADIUS: i64 = 5 * 65536;

/// Squared segment radius, the self-collision threshold.
pub const SEGMENT_RADIUS_SQR: i64 = 327680 * 327680;

/// Squared sum of segment radius and food radius (5 pixels each), the
/// consumption threshold.
pub const APPLE_DIST_SQR: i64 = 655360 * 655360;

/// Distance travelled per movement tick, in pixels: twice the segment
/// radius, so consecutive segments touch.
pub const SEG_SEPARATION_PX: i64 = 10;

/// Interval between movement ticks: 0.05 s.
pub const UPDATE_TIME_US: i64 = 50000;

/// Interval between food spawns: 5 s.
pub const SPAWN_TIME_US: i64 = 5000000;

/// Deferred growth per consumed food item, in segments.
pub const SEGMENTS_PER_APPLE: u64 = 10;

/// Turn rate while a turn control is held: 180 degrees per second.
pub const TURN_RATE_MDEG: i64 = 180000;

/// Turn rate while the turbo control is also held: 360 degrees per second.
pub const TURBO_TURN_RATE_MDEG: i64 = 360000;

/// Lower arena bound on both axes: a 1-pixel wall inside a 1000-pixel
/// window.
pub const ARENA_MIN: i64 = 65536;

/// Upper arena bound on both axes: 999 pixels.
pub const ARENA_MAX: i64 = 999 * 65536;

/// Largest accepted time step per advance call; far beyond any real frame
/// time, it only keeps the 64-bit timer and turn-angle arithmetic in range.
pub const MAX_DT_US: i64 = 1000000000000;

/// A committed position: within the window on both axes. Movement keeps
/// every coordinate in this range, which also keeps squared distances free
/// of overflow.
pub open spec fn pos_ok(v: Vec2) -> bool {
    0 <= v.x <= ARENA_MAX && 0 <= v.y <= ARENA_MAX
}

/// Every position of the sequence is committed.
pub open spec fn all_pos_ok(s: Seq<Vec2>) -> bool {
    forall|i: int| 0 <= i < s.len() ==> pos_ok(#[trigger] s[i])
}

} // verus!
