use std::collections::VecDeque;
use omni_snake::App;
use omni_snake::ControlAction;
use omni_snake::InputState;
use omni_snake::Snake;
use omni_snake::Vec2;
use omni_snake::ARENA_MAX;
use omni_snake::ARENA_MIN;
use omni_snake::FP_ONE;
use omni_snake::SPAWN_TIME_US;
use omni_snake::UPDATE_TIME_US;

fn px(p: i64) -> i64 {
    p * FP_ONE
}

fn vec_px(x: i64, y: i64) -> Vec2 {
    Vec2 { x: px(x), y: px(y) }
}

fn app_with_snake(dir: Vec2, body: &[Vec2]) -> App {
    let mut segments: VecDeque<Vec2> = VecDeque::new();
    for s in body {
        segments.push_back(*s);
    }
    App {
        snake: Snake { dir, segments },
        apples: Vec::new(),
        last_move: 0,
        last_spawn: SPAWN_TIME_US,
        new_segments: 0,
        score: 0,
        keystate: InputState { left: false, right: false, turbo: false },
        game_over: false,
    }
}

#[test]
fn fresh_session_layout() {
    let app = App::new();
    assert_eq!(app.snake.dir, Vec2 { x: -FP_ONE, y: 0 });
    assert_eq!(app.snake.segments.len(), 3);
    assert_eq!(app.snake.segments[0], vec_px(500, 500));
    assert_eq!(app.snake.segments[1], vec_px(510, 500));
    assert_eq!(app.snake.segments[2], vec_px(520, 500));
    assert_eq!(app.apples.len(), 0);
    assert_eq!(app.score, 0);
    assert!(!app.game_over);
}

#[test]
fn snake_spawn_tail_behind_heading() {
    let s = Snake::new(vec_px(500, 500), Vec2 { x: 0, y: FP_ONE });
    assert_eq!(s.segments[0], vec_px(500, 500));
    assert_eq!(s.segments[1], vec_px(500, 490));
    assert_eq!(s.segments[2], vec_px(500, 480));
}

// The boundary scenario: a body laid out in front of its own heading must
// terminate on the very first movement tick, because the tentative head
// lands exactly on the second segment.
#[test]
fn immediate_self_collision_on_first_tick() {
    let mut app = app_with_snake(
        Vec2 { x: -FP_ONE, y: 0 },
        &[vec_px(500, 500), vec_px(490, 500), vec_px(480, 500)],
    );
    let over = app.update(UPDATE_TIME_US);
    assert!(over);
    assert!(app.game_over);
    assert_eq!(app.score, 0);
    // The body is left as it was at termination.
    assert_eq!(app.snake.segments.len(), 3);
    assert_eq!(app.snake.segments[0], vec_px(500, 500));
}

#[test]
fn terminated_session_advances_as_no_op() {
    let mut app = app_with_snake(
        Vec2 { x: -FP_ONE, y: 0 },
        &[vec_px(500, 500), vec_px(490, 500), vec_px(480, 500)],
    );
    assert!(app.update(UPDATE_TIME_US));
    let segments_before = app.snake.segments.clone();
    assert!(app.update(UPDATE_TIME_US));
    assert_eq!(app.snake.segments, segments_before);
    assert_eq!(app.score, 0);
}

#[test]
fn steady_tick_preserves_body_length() {
    let mut app = App::new();
    app.last_spawn = SPAWN_TIME_US;
    let over = app.update(UPDATE_TIME_US);
    assert!(!over);
    assert_eq!(app.snake.segments.len(), 3);
    assert_eq!(app.snake.segments[0], vec_px(490, 500));
    assert_eq!(app.snake.segments[1], vec_px(500, 500));
    assert_eq!(app.snake.segments[2], vec_px(510, 500));
}

#[test]
fn straight_line_never_terminates() {
    let mut app = App::new();
    for _ in 0..500 {
        let over = app.update(UPDATE_TIME_US);
        assert!(!over);
    }
    // Eventual body length bookkeeping: three spawn segments plus ten per
    // consumed apple, minus what is still pending.
    assert_eq!(
        app.snake.segments.len() as u64,
        3 + 10 * app.score - app.new_segments
    );
}

#[test]
fn wrap_around_left_edge() {
    let mut app = app_with_snake(
        Vec2 { x: -FP_ONE, y: 0 },
        &[vec_px(10, 500), vec_px(20, 500), vec_px(30, 500)],
    );
    assert!(!app.update(UPDATE_TIME_US));
    // Tentative 0 px crosses the 1 px wall moving left: re-enters at 994.
    assert_eq!(app.snake.segments[0], vec_px(994, 500));
}

#[test]
fn wrap_around_right_edge() {
    let mut app = app_with_snake(
        Vec2 { x: FP_ONE, y: 0 },
        &[vec_px(990, 500), vec_px(980, 500), vec_px(970, 500)],
    );
    assert!(!app.update(UPDATE_TIME_US));
    // Tentative 1000 px crosses the 999 px wall moving right: re-enters at 6.
    assert_eq!(app.snake.segments[0], vec_px(6, 500));
}

#[test]
fn wrap_around_top_edge() {
    let mut app = app_with_snake(
        Vec2 { x: 0, y: -FP_ONE },
        &[vec_px(500, 10), vec_px(500, 20), vec_px(500, 30)],
    );
    assert!(!app.update(UPDATE_TIME_US));
    assert_eq!(app.snake.segments[0], vec_px(500, 994));
}

#[test]
fn wrap_around_bottom_edge() {
    let mut app = app_with_snake(
        Vec2 { x: 0, y: FP_ONE },
        &[vec_px(500, 990), vec_px(500, 980), vec_px(500, 970)],
    );
    assert!(!app.update(UPDATE_TIME_US));
    assert_eq!(app.snake.segments[0], vec_px(500, 6));
}

#[test]
fn apple_consumption_books_growth_and_score() {
    let mut app = app_with_snake(
        Vec2 { x: -FP_ONE, y: 0 },
        &[vec_px(500, 500), vec_px(510, 500), vec_px(520, 500)],
    );
    app.apples.push(vec_px(490, 500));
    let over = app.update(UPDATE_TIME_US);
    assert!(!over);
    assert_eq!(app.score, 1);
    assert_eq!(app.apples.len(), 0);
    // Ten segments booked, one already materialized this tick.
    assert_eq!(app.new_segments, 9);
    assert_eq!(app.snake.segments.len(), 4);
    assert_eq!(app.snake.segments[0], vec_px(490, 500));
}

#[test]
fn two_apples_consumed_in_one_tick() {
    let mut app = app_with_snake(
        Vec2 { x: -FP_ONE, y: 0 },
        &[vec_px(500, 500), vec_px(510, 500), vec_px(520, 500)],
    );
    app.apples.push(vec_px(490, 505));
    app.apples.push(vec_px(300, 300));
    app.apples.push(vec_px(485, 495));
    let over = app.update(UPDATE_TIME_US);
    assert!(!over);
    assert_eq!(app.score, 2);
    assert_eq!(app.new_segments, 19);
    assert_eq!(app.apples, vec![vec_px(300, 300)]);
    assert_eq!(app.snake.segments.len(), 4);
}

#[test]
fn growth_spreads_one_segment_per_tick() {
    let mut app = app_with_snake(
        Vec2 { x: -FP_ONE, y: 0 },
        &[vec_px(500, 500), vec_px(510, 500), vec_px(520, 500)],
    );
    app.apples.push(vec_px(490, 500));
    assert!(!app.update(UPDATE_TIME_US));
    assert_eq!(app.snake.segments.len(), 4);
    for tick in 0..9 {
        assert!(!app.update(UPDATE_TIME_US));
        assert_eq!(app.snake.segments.len(), 5 + tick);
        assert_eq!(app.new_segments, 8 - tick as u64);
    }
    // Growth exhausted: length holds steady from now on.
    assert!(!app.update(UPDATE_TIME_US));
    assert_eq!(app.snake.segments.len(), 13);
    assert_eq!(app.new_segments, 0);
}

#[test]
fn apple_eaten_exactly_at_reach_boundary() {
    let mut app = app_with_snake(
        Vec2 { x: -FP_ONE, y: 0 },
        &[vec_px(500, 500), vec_px(510, 500), vec_px(520, 500)],
    );
    // Tentative head is at 490 px; reach is 10 px.
    app.apples.push(vec_px(480, 500));
    app.apples.push(Vec2 { x: px(480) - 1, y: px(500) });
    let over = app.update(UPDATE_TIME_US);
    assert!(!over);
    assert_eq!(app.score, 1);
    assert_eq!(app.apples, vec![Vec2 { x: px(480) - 1, y: px(500) }]);
}

#[test]
fn self_collision_exactly_at_radius_boundary() {
    // Tentative head at 490 px; a segment 5 px away collides ...
    let mut app = app_with_snake(
        Vec2 { x: -FP_ONE, y: 0 },
        &[vec_px(500, 500), vec_px(510, 500), vec_px(485, 500)],
    );
    assert!(app.update(UPDATE_TIME_US));

    // ... and one a single fixed-point unit farther does not.
    let mut app = app_with_snake(
        Vec2 { x: -FP_ONE, y: 0 },
        &[
            vec_px(500, 500),
            vec_px(510, 500),
            Vec2 { x: px(485) - 1, y: px(500) },
        ],
    );
    assert!(!app.update(UPDATE_TIME_US));
}

#[test]
fn spawn_fires_immediately_on_fresh_session() {
    let mut app = App::new();
    let over = app.update(UPDATE_TIME_US);
    assert!(!over);
    assert_eq!(app.apples.len(), 1);
    let a = app.apples[0];
    assert!(ARENA_MIN <= a.x && a.x < ARENA_MAX);
    assert!(ARENA_MIN <= a.y && a.y < ARENA_MAX);
    assert_eq!(app.last_spawn, SPAWN_TIME_US);
}

#[test]
fn spawn_after_interval_accumulates_exactly_one() {
    let mut app = App::new();
    app.last_spawn = SPAWN_TIME_US;
    for tick in 0..100 {
        assert!(!app.update(UPDATE_TIME_US));
        if tick < 99 {
            assert_eq!(app.apples.len(), 0, "no spawn before the interval");
        }
    }
    assert_eq!(app.apples.len(), 1);
    let a = app.apples[0];
    assert!(ARENA_MIN <= a.x && a.x < ARENA_MAX);
    assert!(ARENA_MIN <= a.y && a.y < ARENA_MAX);
}

#[test]
fn oversized_dt_runs_at_most_one_tick_and_one_spawn() {
    let mut app = App::new();
    // Ten seconds at once: still a single movement step and single spawn.
    assert!(!app.update(10_000_000));
    assert_eq!(app.snake.segments[0], vec_px(490, 500));
    assert_eq!(app.snake.segments.len(), 3);
    assert_eq!(app.apples.len(), 1);
}

#[test]
fn toggle_keystate_latches_controls() {
    let mut app = App::new();
    app.toggle_keystate(ControlAction::Left, true);
    assert!(app.keystate.left && !app.keystate.right && !app.keystate.turbo);
    app.toggle_keystate(ControlAction::Turbo, true);
    assert!(app.keystate.left && app.keystate.turbo);
    app.toggle_keystate(ControlAction::Left, false);
    assert!(!app.keystate.left && app.keystate.turbo);
    app.toggle_keystate(ControlAction::Right, true);
    assert!(app.keystate.right);
}

#[test]
fn left_turn_quarter_circle() {
    let mut app = App::new();
    app.last_spawn = SPAWN_TIME_US;
    app.toggle_keystate(ControlAction::Left, true);
    // 0.5 s at 180 deg/s is a quarter turn: (-1, 0) becomes (0, 1).
    assert!(!app.update(500_000));
    assert_eq!(app.snake.dir, Vec2 { x: 0, y: FP_ONE });
}

#[test]
fn right_turn_quarter_circle() {
    let mut app = App::new();
    app.last_spawn = SPAWN_TIME_US;
    app.toggle_keystate(ControlAction::Right, true);
    assert!(!app.update(500_000));
    assert_eq!(app.snake.dir, Vec2 { x: 0, y: -FP_ONE });
}

#[test]
fn turbo_doubles_turn_rate() {
    let mut app = App::new();
    app.last_spawn = SPAWN_TIME_US;
    app.toggle_keystate(ControlAction::Left, true);
    app.toggle_keystate(ControlAction::Turbo, true);
    // 0.25 s at 360 deg/s is the same quarter turn.
    assert!(!app.update(250_000));
    assert_eq!(app.snake.dir, Vec2 { x: 0, y: FP_ONE });
}

#[test]
fn left_takes_precedence_over_right() {
    let mut app = App::new();
    app.last_spawn = SPAWN_TIME_US;
    app.toggle_keystate(ControlAction::Left, true);
    app.toggle_keystate(ControlAction::Right, true);
    assert!(!app.update(500_000));
    assert_eq!(app.snake.dir, Vec2 { x: 0, y: FP_ONE });
}

#[test]
fn no_turn_without_held_control() {
    let mut app = App::new();
    app.last_spawn = SPAWN_TIME_US;
    assert!(!app.update(500_000));
    assert_eq!(app.snake.dir, Vec2 { x: -FP_ONE, y: 0 });
}

#[test]
fn snapshot_is_idempotent() {
    let mut app = App::new();
    assert!(!app.update(UPDATE_TIME_US));
    let s1 = app.snapshot();
    let s2 = app.snapshot();
    assert_eq!(s1.segments, s2.segments);
    assert_eq!(s1.apples, s2.apples);
    assert_eq!(s1.score, s2.score);
    assert_eq!(s1.segments, vec![vec_px(490, 500), vec_px(500, 500), vec_px(510, 500)]);
}
