//! Session-level laws, each proved from the contracts of the update path.
use vstd::prelude::*;
use crate::app::App;
use crate::app::Snapshot;
use crate::app::lemma_kept_apples_len;
use crate::app::spec_eaten_count;
use crate::app::spec_hits_body;
use crate::app::spec_next_position;
use crate::app::spec_tick_rel;
use crate::app::spec_tick_tentative;
use crate::app::spec_wrap_coord;
use crate::config::ARENA_MAX;
use crate::config::ARENA_MIN;
use crate::config::SEGMENTS_PER_APPLE;
use crate::config::SEGMENT_RADIUS;
use crate::config::SEGMENT_RADIUS_SQR;
use crate::config::SEG_SEPARATION_PX;
use crate::geometry::Vec2;

verus! {

/// A movement tick that consumes no food, detects no collision and has no
/// growth pending leaves the body length exactly as it was.
pub proof fn lemma_steady_tick_preserves_length(pre: App, post: App, dt: int, over: bool)
    requires
        spec_tick_rel(pre, post, dt, over),
        pre.snake.segments@.len() >= 3,
        pre.last_move - dt <= 0,
        !over,
        spec_eaten_count(pre.apples@, spec_tick_tentative(pre, dt)) == 0,
        pre.new_segments == 0,
    ensures
        post.snake.segments@.len() == pre.snake.segments@.len(),
{
    assert(SEGMENTS_PER_APPLE * spec_eaten_count(pre.apples@, spec_tick_tentative(pre, dt))
        == 0) by (nonlinear_arith)
        requires
            spec_eaten_count(pre.apples@, spec_tick_tentative(pre, dt)) == 0,
    ;
}

/// Bookkeeping of deferred growth over one movement tick that consumes
/// `k` food items: the pending counter is raised by `k` times the growth
/// bonus and drawn down by at most one, the body gains at most one
/// segment, the score grows by exactly `k`, and the sum of body length
/// and pending growth — the eventual body length — grows by exactly the
/// booked bonus.
pub proof fn lemma_growth_conservation(pre: App, post: App, dt: int, over: bool)
    requires
        spec_tick_rel(pre, post, dt, over),
        pre.snake.segments@.len() >= 3,
        pre.last_move - dt <= 0,
        !over,
    ensures
        post.score == pre.score + spec_eaten_count(pre.apples@, spec_tick_tentative(pre, dt)),
        post.snake.segments@.len() <= pre.snake.segments@.len() + 1,
        post.snake.segments@.len() + post.new_segments == pre.snake.segments@.len()
            + pre.new_segments + SEGMENTS_PER_APPLE * spec_eaten_count(
            pre.apples@,
            spec_tick_tentative(pre, dt),
        ),
        pre.new_segments > 0 || spec_eaten_count(pre.apples@, spec_tick_tentative(pre, dt)) > 0
            ==> post.new_segments == pre.new_segments + SEGMENTS_PER_APPLE * spec_eaten_count(
            pre.apples@,
            spec_tick_tentative(pre, dt),
        ) - 1,
{
    let k = spec_eaten_count(pre.apples@, spec_tick_tentative(pre, dt));
    lemma_kept_apples_len(pre.apples@, spec_tick_tentative(pre, dt));
    assert(SEGMENTS_PER_APPLE * k >= 0) by (nonlinear_arith)
        requires
            k >= 0,
            SEGMENTS_PER_APPLE >= 0,
    ;
    if k > 0 {
        assert(SEGMENTS_PER_APPLE * k >= 1) by (nonlinear_arith)
            requires
                k >= 1,
                SEGMENTS_PER_APPLE >= 1,
        ;
    }
}

/// The four toroidal wrap cases: a tentative head crossing a bound while
/// moving toward it re-enters just inside the opposite bound.
pub proof fn lemma_wrap_around(head: Vec2, dir: Vec2)
    ensures
        head.x + SEG_SEPARATION_PX * dir.x - SEGMENT_RADIUS < ARENA_MIN && dir.x < 0
            ==> spec_next_position(head, dir).x == ARENA_MAX - SEGMENT_RADIUS,
        head.x + SEG_SEPARATION_PX * dir.x + SEGMENT_RADIUS >= ARENA_MAX && dir.x > 0
            ==> spec_next_position(head, dir).x == ARENA_MIN + SEGMENT_RADIUS,
        head.y + SEG_SEPARATION_PX * dir.y - SEGMENT_RADIUS < ARENA_MIN && dir.y < 0
            ==> spec_next_position(head, dir).y == ARENA_MAX - SEGMENT_RADIUS,
        head.y + SEG_SEPARATION_PX * dir.y + SEGMENT_RADIUS >= ARENA_MAX && dir.y > 0
            ==> spec_next_position(head, dir).y == ARENA_MIN + SEGMENT_RADIUS,
{
}

/// A fired movement tick terminates the session if and only if the
/// tentative head lies within the segment radius of some body segment.
pub proof fn lemma_self_collision_iff(pre: App, post: App, dt: int, over: bool)
    requires
        spec_tick_rel(pre, post, dt, over),
        pre.last_move - dt <= 0,
    ensures
        over <==> spec_hits_body(pre.snake.segments@, spec_tick_tentative(pre, dt)),
{
}

/// Segments on the same row more than a segment-separation apart in x are
/// out of collision reach.
proof fn lemma_x_gap_no_hit(p: Vec2, q: Vec2)
    requires
        p.y == q.y,
        p.x - q.x >= 655360 || q.x - p.x >= 655360,
    ensures
        p.spec_dist_sqr(q) > SEGMENT_RADIUS_SQR,
{
    assert((p.x - q.x) * (p.x - q.x) > 327680 * 327680) by (nonlinear_arith)
        requires
            p.x - q.x >= 655360 || q.x - p.x >= 655360,
    ;
    assert((p.y - q.y) * (p.y - q.y) == 0) by (nonlinear_arith)
        requires
            p.y == q.y,
    ;
}

/// A three-segment snake travelling straight along the negative x axis,
/// laid out on the wrap cycle: all segments on one row at committed
/// coordinates, each one the straight-step successor of the one behind it.
pub open spec fn straight_left_inv(segs: Seq<Vec2>, dir: Vec2) -> bool {
    &&& dir == (Vec2 { x: -65536i64, y: 0 })
    &&& segs.len() == 3
    &&& segs[1].y == segs[0].y
    &&& segs[2].y == segs[0].y
    &&& forall|i: int|
        0 <= i < 3 ==> ARENA_MIN + SEGMENT_RADIUS <= (#[trigger] segs[i]).x <= ARENA_MAX
            - SEGMENT_RADIUS
    &&& segs[0].x == spec_wrap_coord(segs[1].x - 655360, -65536)
    &&& segs[1].x == spec_wrap_coord(segs[2].x - 655360, -65536)
}

/// A steady-state snake in the straight-line configuration never runs
/// into itself: its next tentative head stays clear of every segment, and
/// committing the move (head prepended, tail retired) yields the
/// straight-line configuration again. By induction, a session advanced
/// with no turns, no food and no pending growth never self-terminates
/// from such a state — `spec_tick_rel` commits exactly this sequence and,
/// by `lemma_self_collision_iff`, reports no termination.
pub proof fn lemma_straight_line_never_collides(segs: Seq<Vec2>, dir: Vec2)
    requires
        straight_left_inv(segs, dir),
    ensures
        !spec_hits_body(segs, spec_next_position(segs[0], dir)),
        straight_left_inv(
            seq![spec_next_position(segs[0], dir)] + segs.drop_last(),
            dir,
        ),
{
    let t = spec_next_position(segs[0], dir);
    assert(SEG_SEPARATION_PX * dir.x == -655360) by (nonlinear_arith)
        requires
            SEG_SEPARATION_PX == 10,
            dir.x == -65536,
    ;
    assert(SEG_SEPARATION_PX * dir.y == 0) by (nonlinear_arith)
        requires
            SEG_SEPARATION_PX == 10,
            dir.y == 0,
    ;
    assert(t.y == segs[0].y);
    assert(t.x == spec_wrap_coord(segs[0].x - 655360, -65536));
    assert(ARENA_MIN + SEGMENT_RADIUS <= t.x <= ARENA_MAX - SEGMENT_RADIUS);

    assert(segs[0].x - t.x >= 655360 || t.x - segs[0].x >= 655360);
    assert(segs[1].x - t.x >= 655360 || t.x - segs[1].x >= 655360);
    assert(segs[2].x - t.x >= 655360 || t.x - segs[2].x >= 655360);
    lemma_x_gap_no_hit(segs[0], t);
    lemma_x_gap_no_hit(segs[1], t);
    lemma_x_gap_no_hit(segs[2], t);
    assert forall|i: int| 0 <= i < segs.len() implies #[trigger] segs[i].spec_dist_sqr(t)
        > SEGMENT_RADIUS_SQR by {
        if i == 0 {
            assert(segs[0].spec_dist_sqr(t) > SEGMENT_RADIUS_SQR);
        } else if i == 1 {
            assert(segs[1].spec_dist_sqr(t) > SEGMENT_RADIUS_SQR);
        } else {
            assert(segs[2].spec_dist_sqr(t) > SEGMENT_RADIUS_SQR);
        }
    }

    let post = seq![t] + segs.drop_last();
    assert(post[0] == t);
    assert(post[1] == segs[0]);
    assert(post[2] == segs[1]);
    assert(forall|i: int|
        0 <= i < 3 ==> ARENA_MIN + SEGMENT_RADIUS <= (#[trigger] post[i]).x <= ARENA_MAX
            - SEGMENT_RADIUS);
}

/// A fresh session starts inside the straight-line cycle: by induction
/// with `lemma_straight_line_never_collides`, advanced with no turns, no
/// food and no pending growth it never self-terminates.
pub proof fn lemma_fresh_session_in_straight_cycle(segs: Seq<Vec2>, dir: Vec2)
    requires
        dir == (Vec2 { x: -65536i64, y: 0 }),
        segs =~= seq![
            Vec2 { x: 32768000, y: 32768000 },
            Vec2 { x: 33423360, y: 32768000 },
            Vec2 { x: 34078720, y: 32768000 },
        ],
    ensures
        straight_left_inv(segs, dir),
{
}

/// Taking the render snapshot twice without an intervening advance yields
/// identical data: the snapshot contract pins its content to the session
/// state alone.
pub proof fn lemma_snapshot_idempotent(a: App, s1: Snapshot, s2: Snapshot)
    requires
        s1.segments@ == a.snake.segments@,
        s1.apples@ == a.apples@,
        s1.score == a.score,
        s2.segments@ == a.snake.segments@,
        s2.apples@ == a.apples@,
        s2.score == a.score,
    ensures
        s1.segments@ == s2.segments@,
        s1.apples@ == s2.apples@,
        s1.score == s2.score,
{
}

} // verus!
