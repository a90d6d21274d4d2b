//! Frame-pipeline behaviour: movement, collision, scoring, paddle control.

use pong::model::{
    Ball, HeldInput, Paddle, ScoreBoard, Side, ARENA_CENTER_X, ARENA_CENTER_Y, BALL_RADIUS,
    BALL_VELOCITY_X, BALL_VELOCITY_Y, PADDLE_HEIGHT, PADDLE_WIDTH, PADDLE_Y_MAX, PADDLE_Y_MIN,
    SCORE_CAP, SERVE_DELAY,
};
use pong::systems::bounce::{point_in_rect, BounceSystem};
use pong::systems::move_balls::MoveBallSystem;
use pong::systems::paddle::PaddleSystem;
use pong::systems::score::ScoreSystem;
use pong::systems::winner::WinnerSystem;

fn still() -> HeldInput {
    HeldInput { left_up: false, left_down: false, right_up: false, right_down: false }
}

fn centred_paddles() -> (Paddle, Paddle) {
    (Paddle::new(Side::Left), Paddle::new(Side::Right))
}

#[test]
fn wall_bounce_scenario() {
    // A 100x100 arena, ball of radius 2 at (50, 2) falling with velocity
    // (65, -50): the collision stage alone flips only the y velocity and
    // moves nothing.
    let mut ball = Ball {
        x: 50_000,
        y: 2_000,
        vx: 65_000,
        vy: -50_000,
        radius: 2_000,
        serve_countdown: None,
    };
    let (left, right) = centred_paddles();
    let bounced = BounceSystem::run(&mut ball, &left, &right);
    assert!(bounced);
    assert_eq!(ball.vx, 65_000);
    assert_eq!(ball.vy, 50_000);
    assert_eq!(ball.x, 50_000);
    assert_eq!(ball.y, 2_000);
}

#[test]
fn ceiling_bounce() {
    let mut ball = Ball {
        x: 50_000,
        y: 98_000,
        vx: 1_000,
        vy: 50_000,
        radius: 2_000,
        serve_countdown: None,
    };
    let (left, right) = centred_paddles();
    let bounced = BounceSystem::run(&mut ball, &left, &right);
    assert!(bounced);
    assert_eq!(ball.vy, -50_000);
    assert_eq!(ball.y, 98_000);
}

#[test]
fn no_bounce_when_moving_away() {
    // Touching the floor but already rising: no bounce.
    let mut ball = Ball {
        x: 50_000,
        y: 2_000,
        vx: 65_000,
        vy: 50_000,
        radius: 2_000,
        serve_countdown: None,
    };
    let (left, right) = centred_paddles();
    let bounced = BounceSystem::run(&mut ball, &left, &right);
    assert!(!bounced);
    assert_eq!(ball.vy, 50_000);
}

#[test]
fn left_paddle_speed_up() {
    // Entering the left paddle's hit-box moving left: vx becomes
    // -vx * 105 / 100, exactly.
    let mut ball = Ball {
        x: 5_000,
        y: 50_000,
        vx: -65_000,
        vy: 10_000,
        radius: 2_000,
        serve_countdown: None,
    };
    let (left, right) = centred_paddles();
    let bounced = BounceSystem::run(&mut ball, &left, &right);
    assert!(bounced);
    assert_eq!(ball.vx, 68_250);
    assert_eq!(ball.vy, 10_000);
    assert_eq!(ball.x, 5_000);
    assert_eq!(ball.y, 50_000);
}

#[test]
fn right_paddle_speed_up() {
    let mut ball = Ball {
        x: 95_000,
        y: 50_000,
        vx: 40_000,
        vy: 0,
        radius: 2_000,
        serve_countdown: None,
    };
    let (left, right) = centred_paddles();
    let bounced = BounceSystem::run(&mut ball, &left, &right);
    assert!(bounced);
    assert_eq!(ball.vx, -42_000);
}

#[test]
fn paddle_misses_when_ball_beyond_reach() {
    // In the left paddle's x band but far above the paddle: no bounce.
    let mut ball = Ball {
        x: 3_000,
        y: 90_000,
        vx: -65_000,
        vy: 0,
        radius: 2_000,
        serve_countdown: None,
    };
    let (left, right) = centred_paddles();
    let bounced = BounceSystem::run(&mut ball, &left, &right);
    assert!(!bounced);
    assert_eq!(ball.vx, -65_000);
}

#[test]
fn wall_and_paddle_in_one_frame() {
    // The ball meets the left paddle's lower corner while touching the
    // floor: both axes flip in the same frame.
    let mut ball = Ball {
        x: 3_000,
        y: 2_000,
        vx: -10_000,
        vy: -5_000,
        radius: 2_000,
        serve_countdown: None,
    };
    let mut left = Paddle::new(Side::Left);
    left.y = PADDLE_Y_MIN;
    let right = Paddle::new(Side::Right);
    let bounced = BounceSystem::run(&mut ball, &left, &right);
    assert!(bounced);
    assert_eq!(ball.vy, 5_000);
    assert_eq!(ball.vx, 10_500);
}

#[test]
fn movement_advances_live_ball() {
    let mut ball = Ball {
        x: 50_000,
        y: 50_000,
        vx: 65_000,
        vy: -50_000,
        radius: 2_000,
        serve_countdown: None,
    };
    let cleared = MoveBallSystem::run(&mut ball, 100);
    assert!(!cleared);
    assert_eq!(ball.x, 56_500);
    assert_eq!(ball.y, 45_000);
}

#[test]
fn movement_rounds_toward_zero() {
    let mut ball = Ball {
        x: 0,
        y: 0,
        vx: 1_999,
        vy: -1_999,
        radius: 2_000,
        serve_countdown: None,
    };
    let _ = MoveBallSystem::run(&mut ball, 1);
    assert_eq!(ball.x, 1);
    assert_eq!(ball.y, -1);
}

#[test]
fn countdown_freezes_ball_and_runs_out() {
    // A serve countdown of 1.0 seconds, ticked in frames of 0.1 seconds,
    // clears exactly once the cumulative elapsed time reaches 1.0, and the
    // ball holds still throughout.
    let mut ball = Ball {
        x: ARENA_CENTER_X,
        y: ARENA_CENTER_Y,
        vx: BALL_VELOCITY_X,
        vy: BALL_VELOCITY_Y,
        radius: BALL_RADIUS,
        serve_countdown: Some(1_000),
    };
    for frame in 1..=9u64 {
        let cleared = MoveBallSystem::run(&mut ball, 100);
        assert!(!cleared);
        assert_eq!(ball.serve_countdown, Some(1_000 - frame * 100));
        assert_eq!(ball.x, ARENA_CENTER_X);
        assert_eq!(ball.y, ARENA_CENTER_Y);
    }
    let cleared = MoveBallSystem::run(&mut ball, 100);
    assert!(cleared);
    assert_eq!(ball.serve_countdown, None);
    assert_eq!(ball.x, ARENA_CENTER_X);
    assert_eq!(ball.y, ARENA_CENTER_Y);
    // The frame after the clearing one is the first that moves the ball.
    let cleared_again = MoveBallSystem::run(&mut ball, 100);
    assert!(!cleared_again);
    assert_eq!(ball.x, ARENA_CENTER_X + 6_500);
    assert_eq!(ball.y, ARENA_CENTER_Y + 5_000);
}

#[test]
fn scoring_left_exit_awards_right() {
    let mut ball = Ball {
        x: 1_500,
        y: 30_000,
        vx: -70_000,
        vy: 4_000,
        radius: 2_000,
        serve_countdown: None,
    };
    let mut scores = ScoreBoard { score_left: 3, score_right: 5 };
    let scored = ScoreSystem::run(&mut ball, &mut scores);
    assert!(scored);
    assert_eq!(scores.score_left, 3);
    assert_eq!(scores.score_right, 6);
    assert_eq!(ball.x, ARENA_CENTER_X);
    assert_eq!(ball.y, ARENA_CENTER_Y);
    assert_eq!(ball.vx, BALL_VELOCITY_X);
    assert_eq!(ball.vy, 4_000);
    assert_eq!(ball.serve_countdown, Some(SERVE_DELAY));
}

#[test]
fn scoring_right_exit_awards_left() {
    let mut ball = Ball {
        x: 99_000,
        y: 30_000,
        vx: 70_000,
        vy: -4_000,
        radius: 2_000,
        serve_countdown: None,
    };
    let mut scores = ScoreBoard { score_left: 0, score_right: 0 };
    let scored = ScoreSystem::run(&mut ball, &mut scores);
    assert!(scored);
    assert_eq!(scores.score_left, 1);
    assert_eq!(scores.score_right, 0);
    assert_eq!(ball.x, ARENA_CENTER_X);
    assert_eq!(ball.vx, -BALL_VELOCITY_X);
    assert_eq!(ball.serve_countdown, Some(SERVE_DELAY));
}

#[test]
fn scoring_ignores_ball_in_play() {
    let mut ball = Ball {
        x: 50_000,
        y: 30_000,
        vx: 70_000,
        vy: -4_000,
        radius: 2_000,
        serve_countdown: None,
    };
    let mut scores = ScoreBoard { score_left: 2, score_right: 2 };
    let scored = ScoreSystem::run(&mut ball, &mut scores);
    assert!(!scored);
    assert_eq!(scores.score_left, 2);
    assert_eq!(scores.score_right, 2);
    assert_eq!(ball.x, 50_000);
    assert_eq!(ball.serve_countdown, None);
}

#[test]
fn score_saturates_at_cap() {
    let mut ball = Ball {
        x: 0,
        y: 30_000,
        vx: -70_000,
        vy: 0,
        radius: 2_000,
        serve_countdown: None,
    };
    let mut scores = ScoreBoard { score_left: 1, score_right: SCORE_CAP };
    let scored = ScoreSystem::run(&mut ball, &mut scores);
    assert!(scored);
    assert_eq!(scores.score_right, SCORE_CAP);
}

#[test]
fn winner_check_threshold() {
    assert!(!WinnerSystem::run(&ScoreBoard { score_left: 9, score_right: 9 }));
    assert!(WinnerSystem::run(&ScoreBoard { score_left: 10, score_right: 0 }));
    assert!(WinnerSystem::run(&ScoreBoard { score_left: 0, score_right: 10 }));
}

#[test]
fn paddle_moves_and_clamps() {
    let mut paddle = Paddle::new(Side::Left);
    // 0.1 seconds of "up" at 50 units per second: 5 units.
    PaddleSystem::run(&mut paddle, true, false, 100);
    assert_eq!(paddle.y, 55_000);
    PaddleSystem::run(&mut paddle, false, true, 100);
    assert_eq!(paddle.y, 50_000);
    // Holding both directions cancels out.
    PaddleSystem::run(&mut paddle, true, true, 100);
    assert_eq!(paddle.y, 50_000);
    // A long hold pins the paddle to the arena's edge.
    PaddleSystem::run(&mut paddle, true, false, 10_000);
    assert_eq!(paddle.y, PADDLE_Y_MAX);
    PaddleSystem::run(&mut paddle, false, true, 10_000);
    assert_eq!(paddle.y, PADDLE_Y_MIN);
}

#[test]
fn paddle_dimensions() {
    let paddle = Paddle::new(Side::Right);
    assert_eq!(paddle.width, PADDLE_WIDTH);
    assert_eq!(paddle.height, PADDLE_HEIGHT);
    assert_eq!(paddle.y, ARENA_CENTER_Y);
    assert!(matches!(paddle.side, Side::Right));
}

#[test]
fn point_in_rect_bounds() {
    assert!(point_in_rect(0, 0, -1, -1, 1, 1));
    assert!(point_in_rect(1, 1, -1, -1, 1, 1));
    assert!(point_in_rect(-1, 1, -1, -1, 1, 1));
    assert!(!point_in_rect(2, 0, -1, -1, 1, 1));
    assert!(!point_in_rect(0, -2, -1, -1, 1, 1));
}

#[test]
fn serve_visibility_follows_countdown() {
    let waiting = Ball::new(BALL_RADIUS, BALL_VELOCITY_X, BALL_VELOCITY_Y);
    assert!(waiting.serve_visible());
    let live = Ball { serve_countdown: None, ..waiting };
    assert!(!live.serve_visible());
}

#[test]
fn held_input_is_plain_data() {
    let h = still();
    assert!(!h.left_up && !h.left_down && !h.right_up && !h.right_down);
}
