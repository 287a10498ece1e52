//! The running session: scheduler timers, heading control, movement with
//! toroidal wrap-around, collision and growth resolution, and food
//! spawning.
use vstd::prelude::*;
use crate::config::APPLE_DIST_SQR;
use crate::config::ARENA_MAX;
use crate::config::ARENA_MIN;
use crate::config::MAX_DT_US;
use crate::config::SEGMENTS_PER_APPLE;
use crate::config::SEGMENT_RADIUS;
use crate::config::SEGMENT_RADIUS_SQR;
use crate::config::SEG_SEPARATION_PX;
use crate::config::SPAWN_TIME_US;
use crate::config::TURBO_TURN_RATE_MDEG;
use crate::config::TURN_RATE_MDEG;
use crate::config::UPDATE_TIME_US;
use crate::config::all_pos_ok;
use crate::config::pos_ok;
use crate::geometry::Vec2;
use crate::snake::Snake;
use crate::trig::FULL_TURN_MDEG;
use crate::trig::rotated;
use crate::trig::spec_rotated;

verus! {

/// The three logical controls, latched while held.
#[derive(Clone, Copy, PartialEq, Eq, Structural, Debug)]
pub enum ControlAction {
    Left,
    Right,
    Turbo,
}

/// Latched control flags, read fresh on every advance.
#[derive(Clone, Copy, PartialEq, Eq, Structural, Debug)]
pub struct InputState {
    pub left: bool,
    pub right: bool,
    pub turbo: bool,
}

/// Outcome of submitting a tentative head position.
#[derive(Clone, Copy, PartialEq, Eq, Structural, Debug)]
pub enum CollisionType {
    No,
    Apple,
    Snake,
}

/// One in-memory session: snake, food field, countdown timers, deferred
/// growth, score, latched input and the terminal flag.
pub struct App {
    pub snake: Snake,
    pub apples: Vec<Vec2>,
    pub last_move: i64,
    pub last_spawn: i64,
    pub new_segments: u64,
    pub score: u64,
    pub keystate: InputState,
    pub game_over: bool,
}

/// The turn applied by one advance call holding a turn control for
/// `dt` microseconds, normalized to `[0, 360000)` milli-degrees.
pub open spec fn spec_turn_mdeg(turbo: bool, dt: int) -> int {
    ((if turbo {
        TURBO_TURN_RATE_MDEG as int
    } else {
        TURN_RATE_MDEG as int
    }) * dt / 1000000) % 360000
}

/// A left turn is the complementary normalized angle.
pub open spec fn spec_left_angle(a: int) -> int {
    if a == 0 {
        0
    } else {
        360000 - a
    }
}

/// Heading after the rotation phase of one advance call: left takes
/// precedence over right, turbo doubles the rate, no held control leaves
/// the heading untouched.
pub open spec fn spec_heading_after(dir: Vec2, keys: InputState, dt: int) -> Vec2 {
    if keys.left {
        spec_rotated(dir, spec_left_angle(spec_turn_mdeg(keys.turbo, dt)))
    } else if keys.right {
        spec_rotated(dir, spec_turn_mdeg(keys.turbo, dt))
    } else {
        dir
    }
}

/// Toroidal wrap of one axis: a tentative coordinate crossing the lower
/// bound while moving negatively re-enters just inside the upper bound,
/// and symmetrically.
pub open spec fn spec_wrap_coord(t: int, d: int) -> int {
    if t - SEGMENT_RADIUS < ARENA_MIN && d < 0 {
        ARENA_MAX - SEGMENT_RADIUS
    } else if t + SEGMENT_RADIUS >= ARENA_MAX && d > 0 {
        ARENA_MIN + SEGMENT_RADIUS
    } else {
        t
    }
}

/// The tentative next head position: one segment-separation step along the
/// heading, wrapped on each axis.
pub open spec fn spec_next_position(head: Vec2, dir: Vec2) -> Vec2 {
    Vec2 {
        x: spec_wrap_coord(head.x + SEG_SEPARATION_PX * dir.x, dir.x as int) as i64,
        y: spec_wrap_coord(head.y + SEG_SEPARATION_PX * dir.y, dir.y as int) as i64,
    }
}

/// Self-collision: the tentative head lies within the segment radius of
/// some existing body segment (the current head included).
pub open spec fn spec_hits_body(segs: Seq<Vec2>, p: Vec2) -> bool {
    exists|i: int|
        0 <= i < segs.len() && #[trigger] segs[i].spec_dist_sqr(p) <= SEGMENT_RADIUS_SQR
}

/// Consumption: the food item lies within the combined segment and food
/// radii of the tentative head.
pub open spec fn spec_eaten(a: Vec2, p: Vec2) -> bool {
    a.spec_dist_sqr(p) <= APPLE_DIST_SQR
}

/// The food items that survive a tick with tentative head `p`, order
/// kept.
pub open spec fn spec_kept_apples(apples: Seq<Vec2>, p: Vec2) -> Seq<Vec2>
    decreases apples.len(),
{
    if apples.len() == 0 {
        Seq::empty()
    } else {
        let rest = spec_kept_apples(apples.drop_last(), p);
        if spec_eaten(apples.last(), p) {
            rest
        } else {
            rest.push(apples.last())
        }
    }
}

/// How many food items a tick with tentative head `p` consumes.
pub open spec fn spec_eaten_count(apples: Seq<Vec2>, p: Vec2) -> int {
    apples.len() - spec_kept_apples(apples, p).len()
}

/// Where the head of `pre` would move if the movement tick fired after
/// `dt` microseconds: one step along the already-turned heading, wrapped.
pub open spec fn spec_tick_tentative(pre: App, dt: int) -> Vec2 {
    spec_next_position(
        pre.snake.segments@[0],
        spec_heading_after(pre.snake.dir, pre.keystate, dt),
    )
}

/// What one spawn-timer phase does to a session whose food field held
/// `apples_mid` and whose spawn timer read `last_spawn` before `dt`
/// elapsed: either the timer merely counts down, or it resets and exactly
/// one food item at some position within the arena bounds is appended.
pub open spec fn spec_spawn_rel(apples_mid: Seq<Vec2>, last_spawn: int, dt: int, post: App) -> bool {
    if last_spawn - dt <= 0 {
        &&& post.last_spawn == SPAWN_TIME_US
        &&& post.apples@.len() == apples_mid.len() + 1
        &&& post.apples@.subrange(0, apples_mid.len() as int) == apples_mid
        &&& ARENA_MIN <= post.apples@.last().x < ARENA_MAX
        &&& ARENA_MIN <= post.apples@.last().y < ARENA_MAX
    } else {
        &&& post.last_spawn == last_spawn - dt
        &&& post.apples@ == apples_mid
    }
}

/// Everything one advance call by `dt` microseconds does to a running
/// session (`pre` before, `post` after, `over` the returned flag):
/// the heading turns first; then, if the movement timer fires, the
/// tentative head position is resolved — a self-collision terminates the
/// session on the spot, otherwise food within reach is consumed, growth
/// and score are booked, and the body is committed (tail retired exactly
/// when no growth is pending); finally, unless the session just ended, the
/// spawn timer may add one food item.
pub open spec fn spec_tick_rel(pre: App, post: App, dt: int, over: bool) -> bool {
    let dir1 = spec_heading_after(pre.snake.dir, pre.keystate, dt);
    let tent = spec_tick_tentative(pre, dt);
    let fires = pre.last_move - dt <= 0;
    let hits = spec_hits_body(pre.snake.segments@, tent);
    &&& post.keystate == pre.keystate
    &&& post.snake.dir == dir1
    &&& if !fires {
        &&& !over
        &&& !post.game_over
        &&& post.snake.segments@ == pre.snake.segments@
        &&& post.last_move == pre.last_move - dt
        &&& post.new_segments == pre.new_segments
        &&& post.score == pre.score
        &&& spec_spawn_rel(pre.apples@, pre.last_spawn as int, dt, post)
    } else if hits {
        &&& over
        &&& post.game_over
        &&& post.snake.segments@ == pre.snake.segments@
        &&& post.last_move == UPDATE_TIME_US
        &&& post.new_segments == pre.new_segments
        &&& post.score == pre.score
        &&& post.apples@ == pre.apples@
        &&& post.last_spawn == pre.last_spawn
    } else {
        let kept = spec_kept_apples(pre.apples@, tent);
        let k = spec_eaten_count(pre.apples@, tent);
        let pending = pre.new_segments + SEGMENTS_PER_APPLE * k;
        &&& !over
        &&& !post.game_over
        &&& post.score == pre.score + k
        &&& post.new_segments == if pending == 0 {
            0int
        } else {
            pending - 1
        }
        &&& post.snake.segments@ == if pending == 0 {
            seq![tent] + pre.snake.segments@.drop_last()
        } else {
            seq![tent] + pre.snake.segments@
        }
        &&& post.last_move == UPDATE_TIME_US
        &&& spec_spawn_rel(kept, pre.last_spawn as int, dt, post)
    }
}

/// Relies on `rand::random_range`: a value uniformly sampled from the
/// given range, which always lies within it. The precondition keeps the
/// range non-empty, the one case in which the call could panic.
#[verifier::external_body]
fn random_fp_in(lo: i64, hi: i64) -> (r: i64)
    requires
        lo < hi,
    ensures
        lo <= r < hi,
{
    rand::random_range(lo..hi)
}

/// The normalized angle turned by holding a control at `rate`
/// milli-degrees per second for `dt` microseconds.
fn turn_angle(rate: i64, dt: i64) -> (a: i64)
    requires
        0 <= rate <= TURBO_TURN_RATE_MDEG,
        0 <= dt <= MAX_DT_US,
    ensures
        a == (rate * dt / 1000000) % 360000,
        0 <= a < 360000,
{
    proof {
        assert(rate * dt <= 360000000000000000) by (nonlinear_arith)
            requires
                0 <= rate <= 360000,
                0 <= dt <= 1000000000000,
        ;
    }
    let prod: u64 = (rate as u64) * (dt as u64);
    let q: u64 = prod / 1000000;
    let r: u64 = q % 360000;
    r as i64
}

/// Surviving items are never more numerous than the field they came from.
pub proof fn lemma_kept_apples_len(apples: Seq<Vec2>, p: Vec2)
    ensures
        spec_kept_apples(apples, p).len() <= apples.len(),
    decreases apples.len(),
{
    if apples.len() > 0 {
        lemma_kept_apples_len(apples.drop_last(), p);
    }
}

impl App {
    /// Session invariant: a well-formed snake, committed food positions,
    /// and both countdown timers at or below their reset values.
    pub open spec fn wf(self) -> bool {
        &&& self.snake.wf()
        &&& all_pos_ok(self.apples@)
        &&& 0 <= self.last_move <= UPDATE_TIME_US
        &&& 0 <= self.last_spawn <= SPAWN_TIME_US
    }

    /// A fresh session: snake at the window center heading towards
    /// negative x, no food, both timers due immediately, nothing held.
    pub fn new() -> (app: App)
        ensures
            app.wf(),
            app.snake.dir == (Vec2 { x: -65536i64, y: 0 }),
            app.snake.segments@.len() == 3,
            app.snake.segments@[0] == (Vec2 { x: 32768000, y: 32768000 }),
            app.snake.segments@[1] == (Vec2 { x: 33423360, y: 32768000 }),
            app.snake.segments@[2] == (Vec2 { x: 34078720, y: 32768000 }),
            app.apples@ == Seq::<Vec2>::empty(),
            app.last_move == 0,
            app.last_spawn == 0,
            app.new_segments == 0,
            app.score == 0,
            app.keystate == (InputState { left: false, right: false, turbo: false }),
            !app.game_over,
    {
        App {
            snake: Snake::new(Vec2::new(32768000, 32768000), Vec2::new(-65536, 0)),
            apples: Vec::new(),
            last_move: 0,
            last_spawn: 0,
            new_segments: 0,
            score: 0,
            keystate: InputState { left: false, right: false, turbo: false },
            game_over: false,
        }
    }

    /// Latches or releases one logical control; nothing else changes.
    pub fn toggle_keystate(&mut self, action: ControlAction, pressed: bool)
        ensures
            final(self).keystate.left == (if action is Left {
                pressed
            } else {
                old(self).keystate.left
            }),
            final(self).keystate.right == (if action is Right {
                pressed
            } else {
                old(self).keystate.right
            }),
            final(self).keystate.turbo == (if action is Turbo {
                pressed
            } else {
                old(self).keystate.turbo
            }),
            final(self).snake == old(self).snake,
            final(self).apples == old(self).apples,
            final(self).last_move == old(self).last_move,
            final(self).last_spawn == old(self).last_spawn,
            final(self).new_segments == old(self).new_segments,
            final(self).score == old(self).score,
            final(self).game_over == old(self).game_over,
    {
        match action {
            ControlAction::Left => self.keystate.left = pressed,
            ControlAction::Right => self.keystate.right = pressed,
            ControlAction::Turbo => self.keystate.turbo = pressed,
        }
    }

    /// Computes where the head would move this tick: one step along the
    /// heading, wrapped toroidally at the arena bounds.
    pub fn calc_next_position(&self) -> (p: Vec2)
        requires
            self.wf(),
        ensures
            p == spec_next_position(self.snake.spec_head(), self.snake.dir),
            pos_ok(p),
    {
        let dir = self.snake.dir;
        let head = self.snake.segments[0];
        let mut seg = head.plus(dir.times(SEG_SEPARATION_PX));

        if seg.x - SEGMENT_RADIUS < ARENA_MIN && dir.x < 0 {
            seg.x = ARENA_MAX - SEGMENT_RADIUS;
        }
        if seg.x + SEGMENT_RADIUS >= ARENA_MAX && dir.x > 0 {
            seg.x = ARENA_MIN + SEGMENT_RADIUS;
        }
        if seg.y - SEGMENT_RADIUS < ARENA_MIN && dir.y < 0 {
            seg.y = ARENA_MAX - SEGMENT_RADIUS;
        }
        if seg.y + SEGMENT_RADIUS >= ARENA_MAX && dir.y > 0 {
            seg.y = ARENA_MIN + SEGMENT_RADIUS;
        }
        seg
    }

    /// Classifies a tentative head position. A self-collision leaves the
    /// food field alone; otherwise every food item within reach of the
    /// head is removed, and the result says whether any was.
    pub fn check_collisions(&mut self, head: Vec2) -> (c: CollisionType)
        requires
            old(self).wf(),
            pos_ok(head),
        ensures
            final(self).wf(),
            final(self).snake == old(self).snake,
            final(self).last_move == old(self).last_move,
            final(self).last_spawn == old(self).last_spawn,
            final(self).new_segments == old(self).new_segments,
            final(self).score == old(self).score,
            final(self).keystate == old(self).keystate,
            final(self).game_over == old(self).game_over,
            match c {
                CollisionType::Snake => spec_hits_body(old(self).snake.segments@, head)
                    && final(self).apples == old(self).apples,
                CollisionType::Apple => !spec_hits_body(old(self).snake.segments@, head)
                    && final(self).apples@ == spec_kept_apples(old(self).apples@, head)
                    && spec_eaten_count(old(self).apples@, head) > 0,
                CollisionType::No => !spec_hits_body(old(self).snake.segments@, head)
                    && final(self).apples@ == spec_kept_apples(old(self).apples@, head)
                    && spec_eaten_count(old(self).apples@, head) == 0,
            },
            final(self).apples@.len() <= old(self).apples@.len(),
    {
        let n = self.snake.segments.len();
        let mut i: usize = 0;
        while i < n
            invariant
                self.wf(),
                n == self.snake.segments@.len(),
                i <= n,
                pos_ok(head),
                forall|j: int|
                    0 <= j < i ==> #[trigger] self.snake.segments@[j].spec_dist_sqr(head)
                        > SEGMENT_RADIUS_SQR,
            decreases n - i,
        {
            if self.snake.segments[i].dist_sqr(head) <= SEGMENT_RADIUS_SQR {
                return CollisionType::Snake;
            }
            i = i + 1;
        }

        let m = self.apples.len();
        let mut kept: Vec<Vec2> = Vec::new();
        let mut j: usize = 0;
        while j < m
            invariant
                self.wf(),
                m == self.apples@.len(),
                j <= m,
                pos_ok(head),
                kept@ == spec_kept_apples(self.apples@.take(j as int), head),
                kept@.len() <= j,
                all_pos_ok(kept@),
            decreases m - j,
        {
            let a = self.apples[j];
            proof {
                assert(self.apples@.take(j + 1int).drop_last() =~= self.apples@.take(j as int));
                assert(self.apples@.take(j + 1int).last() == a);
            }
            if a.dist_sqr(head) > APPLE_DIST_SQR {
                kept.push(a);
            }
            j = j + 1;
        }
        proof {
            assert(self.apples@.take(m as int) =~= self.apples@);
        }
        let any_eaten = kept.len() < m;
        self.apples = kept;
        if any_eaten {
            CollisionType::Apple
        } else {
            CollisionType::No
        }
    }

    /// Advances the session by `dt_us` microseconds: turns the heading,
    /// runs at most one movement tick and at most one food spawn, and
    /// returns whether the session is over. A session that has already
    /// terminated is left untouched (advancing it is a no-op that keeps
    /// reporting termination). The arithmetic preconditions only keep the
    /// 64-bit score and growth counters in range.
    pub fn update(&mut self, dt_us: i64) -> (game_over: bool)
        requires
            old(self).wf(),
            0 <= dt_us <= MAX_DT_US,
            old(self).score + old(self).apples@.len() <= u64::MAX,
            old(self).new_segments + SEGMENTS_PER_APPLE * old(self).apples@.len() <= u64::MAX,
        ensures
            final(self).wf(),
            game_over == final(self).game_over,
            old(self).game_over ==> *final(self) == *old(self) && game_over,
            !old(self).game_over ==> spec_tick_rel(
                *old(self),
                *final(self),
                dt_us as int,
                game_over,
            ),
    {
        if self.game_over {
            return true;
        }
        let turn_rate = if self.keystate.turbo {
            TURBO_TURN_RATE_MDEG
        } else {
            TURN_RATE_MDEG
        };
        if self.keystate.left {
            let a = turn_angle(turn_rate, dt_us);
            let ang = if a == 0 {
                0
            } else {
                FULL_TURN_MDEG - a
            };
            self.snake.dir = rotated(self.snake.dir, ang);
        } else if self.keystate.right {
            let a = turn_angle(turn_rate, dt_us);
            self.snake.dir = rotated(self.snake.dir, a);
        }
        self.last_move = self.last_move - dt_us;
        if self.last_move <= 0 {
            self.last_move = UPDATE_TIME_US;
            let seg = self.calc_next_position();
            let n0 = self.apples.len();
            let collision_type = self.check_collisions(seg);
            match collision_type {
                CollisionType::Snake => {
                    self.game_over = true;
                    return true;
                },
                CollisionType::Apple => {
                    let k = n0 - self.apples.len();
                    proof {
                        assert(SEGMENTS_PER_APPLE * (k as u64) <= SEGMENTS_PER_APPLE * (
                        n0 as u64)) by (nonlinear_arith)
                            requires
                                k <= n0,
                                SEGMENTS_PER_APPLE >= 0,
                        ;
                    }
                    self.score = self.score + (k as u64);
                    self.new_segments = self.new_segments + SEGMENTS_PER_APPLE * (k as u64);
                },
                CollisionType::No => {},
            }
            if self.new_segments == 0 {
                let _ = self.snake.segments.pop_back();
            } else {
                self.new_segments = self.new_segments - 1;
            }
            self.snake.segments.push_front(seg);
            proof {
                assert(old(self).snake.segments@.drop_last() =~= old(
                    self,
                ).snake.segments@.subrange(0, old(self).snake.segments@.len() - 1));
                assert forall|ii: int| 0 <= ii < self.snake.segments@.len() implies pos_ok(
                    #[trigger] self.snake.segments@[ii],
                ) by {
                    if ii > 0 {
                        assert(self.snake.segments@[ii] == old(self).snake.segments@[ii - 1]);
                    }
                }
            }
        }
        self.last_spawn = self.last_spawn - dt_us;
        if self.last_spawn <= 0 {
            self.last_spawn = SPAWN_TIME_US;
            let ghost apples_mid = self.apples@;
            let x = random_fp_in(ARENA_MIN, ARENA_MAX);
            let y = random_fp_in(ARENA_MIN, ARENA_MAX);
            self.apples.push(Vec2 { x, y });
            proof {
                assert(self.apples@.subrange(0, apples_mid.len() as int) =~= apples_mid);
            }
        }
        false
    }

    /// The read-only snapshot a renderer consumes each frame. Its content
    /// is a pure function of the session state, so taking it twice
    /// without an intervening advance yields identical data.
    pub fn snapshot(&self) -> (s: Snapshot)
        ensures
            s.segments@ == self.snake.segments@,
            s.apples@ == self.apples@,
            s.score == self.score,
    {
        let n = self.snake.segments.len();
        let mut segments: Vec<Vec2> = Vec::new();
        let mut i: usize = 0;
        while i < n
            invariant
                n == self.snake.segments@.len(),
                i <= n,
                segments@ == self.snake.segments@.take(i as int),
            decreases n - i,
        {
            segments.push(self.snake.segments[i]);
            proof {
                assert(self.snake.segments@.take(i + 1int) =~= self.snake.segments@.take(
                    i as int,
                ).push(self.snake.segments@[i as int]));
            }
            i = i + 1;
        }
        let m = self.apples.len();
        let mut apples: Vec<Vec2> = Vec::new();
        let mut j: usize = 0;
        while j < m
            invariant
                m == self.apples@.len(),
                j <= m,
                apples@ == self.apples@.take(j as int),
            decreases m - j,
        {
            apples.push(self.apples[j]);
            proof {
                assert(self.apples@.take(j + 1int) =~= self.apples@.take(j as int).push(
                    self.apples@[j as int],
                ));
            }
            j = j + 1;
        }
        proof {
            assert(self.snake.segments@.take(n as int) =~= self.snake.segments@);
            assert(self.apples@.take(m as int) =~= self.apples@);
        }
        Snapshot { segments, apples, score: self.score }
    }
}

/// What the renderer sees: the body segments in order, the food
/// positions, and the score.
pub struct Snapshot {
    pub segments: Vec<Vec2>,
    pub apples: Vec<Vec2>,
    pub score: u64,
}

} // verus!
