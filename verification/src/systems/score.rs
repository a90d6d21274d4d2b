//! The Scoring stage: detects the ball leaving the arena on the left or
//! right, awards the point, and re-arms the serve.
//!
//! When the ball exits one side, the other player's score goes up (capped at
//! the three-digit display limit), the ball is reset to the arena's centre
//! with the serve countdown armed, and it is served toward the side opposite
//! the one it exited, so the serve direction alternates with the conceding
//! side.

use vstd::prelude::*;

verus! {

use crate::model::{
    Ball, ScoreBoard, ARENA_CENTER_X, ARENA_CENTER_Y, ARENA_WIDTH, BALL_VELOCITY_X, SCORE_CAP,
    SERVE_DELAY,
};

/// The ball has crossed the left bound.
pub open spec fn exited_left(b: Ball) -> bool {
    b.x <= b.radius
}

/// The ball has crossed the right bound, provided it did not cross the left
/// one first (the left exit is checked first, so it wins a tie).
pub open spec fn exited_right(b: Ball) -> bool {
    !exited_left(b) && b.x >= ARENA_WIDTH - b.radius
}

/// A point is scored this frame.
pub open spec fn ball_out(b: Ball) -> bool {
    exited_left(b) || exited_right(b)
}

/// A score incremented by one point, capped at the display limit.
pub open spec fn bump(score: u32) -> u32 {
    if score >= SCORE_CAP {
        SCORE_CAP
    } else {
        (score + 1) as u32
    }
}

/// What the Scoring stage does to the ball: on either exit it returns to
/// the arena's centre with the countdown armed, serving toward the side
/// opposite the exit; otherwise it is untouched.
pub open spec fn serve_ball(b: Ball) -> Ball {
    if exited_left(b) {
        Ball {
            x: ARENA_CENTER_X,
            y: ARENA_CENTER_Y,
            vx: BALL_VELOCITY_X,
            serve_countdown: Some(SERVE_DELAY),
            ..b
        }
    } else if exited_right(b) {
        Ball {
            x: ARENA_CENTER_X,
            y: ARENA_CENTER_Y,
            vx: (-BALL_VELOCITY_X) as i64,
            serve_countdown: Some(SERVE_DELAY),
            ..b
        }
    } else {
        b
    }
}

/// What the Scoring stage does to the board: a left exit is the right
/// player's point and a right exit the left player's; anything else leaves
/// the board alone.
pub open spec fn tally(b: Ball, s: ScoreBoard) -> ScoreBoard {
    if exited_left(b) {
        ScoreBoard { score_right: bump(s.score_right), ..s }
    } else if exited_right(b) {
        ScoreBoard { score_left: bump(s.score_left), ..s }
    } else {
        s
    }
}

/// The Scoring stage.
pub struct ScoreSystem;

impl ScoreSystem {
    /// Score one frame: award the point for an exited ball and reset it for
    /// the next serve.  Returns whether a point was scored -- the cue for
    /// the score sound and for revealing the serve indicator.
    pub fn run(ball: &mut Ball, scores: &mut ScoreBoard) -> (scored: bool)
        requires
            old(ball).wf(),
            old(scores).wf(),
        ensures
            *final(ball) == serve_ball(*old(ball)),
            *final(scores) == tally(*old(ball), *old(scores)),
            final(ball).wf(),
            final(scores).wf(),
            scored == ball_out(*old(ball)),
    {
        if ball.x <= ball.radius {
            scores.score_right = if scores.score_right >= SCORE_CAP {
                SCORE_CAP
            } else {
                scores.score_right + 1
            };
            ball.x = ARENA_CENTER_X;
            ball.y = ARENA_CENTER_Y;
            ball.vx = BALL_VELOCITY_X;
            ball.serve_countdown = Some(SERVE_DELAY);
            true
        } else if ball.x >= ARENA_WIDTH - ball.radius {
            scores.score_left = if scores.score_left >= SCORE_CAP {
                SCORE_CAP
            } else {
                scores.score_left + 1
            };
            ball.x = ARENA_CENTER_X;
            ball.y = ARENA_CENTER_Y;
            ball.vx = -BALL_VELOCITY_X;
            ball.serve_countdown = Some(SERVE_DELAY);
            true
        } else {
            false
        }
    }
}

} // verus!
