//! The snake: a heading and an ordered chain of body segments, front
//! segment first.
use vstd::prelude::*;
use std::collections::VecDeque;
use crate::config::ARENA_MAX;
use crate::config::SEG_SEPARATION_PX;
use crate::config::all_pos_ok;
use crate::config::pos_ok;
use crate::geometry::Vec2;

verus! {

/// Body-segment chain plus current heading. The front of `segments` is the
/// head, the back is the tail.
pub struct Snake {
    pub dir: Vec2,
    pub segments: VecDeque<Vec2>,
}

impl Snake {
    /// Structural invariant: at least three segments, all committed inside
    /// the window, and a heading inside the unit box.
    pub open spec fn wf(self) -> bool {
        &&& self.segments@.len() >= 3
        &&& all_pos_ok(self.segments@)
        &&& self.dir.unit_box()
    }

    /// The head segment.
    pub open spec fn spec_head(self) -> Vec2 {
        self.segments@[0]
    }

    /// A fresh snake: the head at `start_pos` and a two-segment tail laid
    /// out behind it against `start_dir`, consecutive segments separated by
    /// twice the segment radius.
    pub fn new(start_pos: Vec2, start_dir: Vec2) -> (s: Snake)
        requires
            start_dir.unit_box(),
            pos_ok(start_pos),
            0 <= start_pos.x - SEG_SEPARATION_PX * start_dir.x <= ARENA_MAX,
            0 <= start_pos.y - SEG_SEPARATION_PX * start_dir.y <= ARENA_MAX,
            0 <= start_pos.x - SEG_SEPARATION_PX * start_dir.x - SEG_SEPARATION_PX * start_dir.x
                <= ARENA_MAX,
            0 <= start_pos.y - SEG_SEPARATION_PX * start_dir.y - SEG_SEPARATION_PX * start_dir.y
                <= ARENA_MAX,
        ensures
            s.wf(),
            s.dir == start_dir,
            s.segments@.len() == 3,
            s.segments@[0] == start_pos,
            s.segments@[1].x == start_pos.x - SEG_SEPARATION_PX * start_dir.x,
            s.segments@[1].y == start_pos.y - SEG_SEPARATION_PX * start_dir.y,
            s.segments@[2].x == start_pos.x - SEG_SEPARATION_PX * start_dir.x - SEG_SEPARATION_PX
                * start_dir.x,
            s.segments@[2].y == start_pos.y - SEG_SEPARATION_PX * start_dir.y - SEG_SEPARATION_PX
                * start_dir.y,
    {
        let step = start_dir.times(SEG_SEPARATION_PX);
        let mut segments: VecDeque<Vec2> = VecDeque::new();
        segments.push_back(start_pos);
        segments.push_back(start_pos.minus(step));
        segments.push_back(start_pos.minus(step).minus(step));
        Snake { dir: start_dir, segments }
    }
}

} // verus!
