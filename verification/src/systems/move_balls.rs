//! The Movement stage: advances a live ball by its velocity, and counts a
//! pending serve countdown down while holding the ball still.

use vstd::prelude::*;

verus! {

use crate::model::{clamp_pos, clamp_position, scaled, scaled_delta, Ball, DT_MAX};

/// What the Movement stage does to a ball over `dt` milliseconds.
///
/// A live ball (no countdown) moves by `velocity * dt / 1000`.  A waiting
/// ball does not move: its countdown shrinks by `dt`, and the frame whose
/// elapsed time covers the remainder clears the countdown, so that the ball
/// launches on the following frame.
pub open spec fn move_ball(b: Ball, dt: u64) -> Ball {
    match b.serve_countdown {
        None => Ball {
            x: clamp_pos(b.x + scaled(b.vx as int, dt as int)),
            y: clamp_pos(b.y + scaled(b.vy as int, dt as int)),
            ..b
        },
        Some(t) => if t <= dt {
            Ball { serve_countdown: None, ..b }
        } else {
            Ball { serve_countdown: Some((t - dt) as u64), ..b }
        },
    }
}

/// The Movement stage iterated over `k` frames of `dt` milliseconds each.
pub open spec fn run_moves(b: Ball, dt: u64, k: nat) -> Ball
    decreases k,
{
    if k == 0 {
        b
    } else {
        move_ball(run_moves(b, dt, (k - 1) as nat), dt)
    }
}

/// Law: a serve countdown of `t` milliseconds, ticked in frames of `dt`
/// each, is cleared exactly once the cumulative elapsed time `k * dt`
/// reaches `t`; the ball's position does not change while the countdown is
/// pending, nor on the frame that clears it, and the Movement stage never
/// touches velocity or radius.
pub proof fn lemma_serve_countdown(b: Ball, dt: u64, k: nat)
    requires
        b.serve_countdown is Some,
        0 < b.serve_countdown->0,
        0 < dt,
    ensures
        k * dt < b.serve_countdown->0 ==> run_moves(b, dt, k).serve_countdown == Some(
            (b.serve_countdown->0 - k * dt) as u64,
        ),
        k * dt >= b.serve_countdown->0 ==> run_moves(b, dt, k).serve_countdown is None,
        run_moves(b, dt, k).serve_countdown is Some ==> run_moves(b, dt, k).x == b.x
            && run_moves(b, dt, k).y == b.y,
        k >= 1 && (k - 1) * dt < b.serve_countdown->0 ==> run_moves(b, dt, k).x == b.x
            && run_moves(b, dt, k).y == b.y,
        run_moves(b, dt, k).vx == b.vx,
        run_moves(b, dt, k).vy == b.vy,
        run_moves(b, dt, k).radius == b.radius,
    decreases k,
{
    if k >= 1 {
        lemma_serve_countdown(b, dt, (k - 1) as nat);
        assert((k - 1) * dt + dt == k * dt) by (nonlinear_arith);
    }
}

/// The Movement stage.
pub struct MoveBallSystem;

impl MoveBallSystem {
    /// Advance the ball by one frame of `dt` milliseconds.  Returns whether
    /// the serve countdown ran out this frame -- the cue to hide the serve
    /// indicator.
    pub fn run(ball: &mut Ball, dt: u64) -> (serve_cleared: bool)
        requires
            old(ball).wf(),
            dt <= DT_MAX,
        ensures
            *final(ball) == move_ball(*old(ball), dt),
            final(ball).wf(),
            serve_cleared == (old(ball).serve_countdown is Some
                && final(ball).serve_countdown is None),
    {
        match ball.serve_countdown {
            None => {
                let dx: i64 = scaled_delta(ball.vx, dt);
                let dy: i64 = scaled_delta(ball.vy, dt);
                ball.x = clamp_position(ball.x + dx);
                ball.y = clamp_position(ball.y + dy);
                false
            },
            Some(t) => {
                if t <= dt {
                    ball.serve_countdown = None;
                    true
                } else {
                    ball.serve_countdown = Some(t - dt);
                    false
                }
            },
        }
    }
}

} // verus!
