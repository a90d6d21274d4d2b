//! The Collision stage: wall and paddle bounce resolution.
//!
//! A wall bounce reverses the vertical velocity when the ball touches the
//! floor while falling or the ceiling while rising.  A paddle bounce
//! reverses the horizontal velocity -- with a small speed-up -- when the
//! ball's centre is inside the paddle's hit-box (the paddle rectangle outset
//! by the ball radius on every side) and the ball is moving toward that
//! paddle's wall.  Wall and paddle bounces act on independent axes, so one
//! frame may apply both.

use vstd::prelude::*;

verus! {

use crate::model::{
    flip_speed, flip_speed_spec, Ball, Paddle, Side, ARENA_HEIGHT, ARENA_WIDTH,
    PADDLE_HALF_HEIGHT, PADDLE_HALF_WIDTH, VEL_LIMIT,
};

/// The ball touches the floor while falling.
pub open spec fn hits_floor(b: Ball) -> bool {
    b.y <= b.radius && b.vy < 0
}

/// The ball touches the ceiling while rising.
pub open spec fn hits_ceiling(b: Ball) -> bool {
    b.y >= ARENA_HEIGHT - b.radius && b.vy > 0
}

/// A wall bounce applies this frame.
pub open spec fn wall_hit(b: Ball) -> bool {
    hits_floor(b) || hits_ceiling(b)
}

/// What the wall bounce does: reverse the vertical velocity when a wall is
/// hit, nothing otherwise.
pub open spec fn wall_deflect(b: Ball) -> Ball {
    if wall_hit(b) {
        Ball { vy: (-b.vy) as i64, ..b }
    } else {
        b
    }
}

/// The fixed x coordinate of a paddle's centre, by its side.
pub open spec fn paddle_center_x(side: Side) -> int {
    match side {
        Side::Left => PADDLE_HALF_WIDTH as int,
        Side::Right => ARENA_WIDTH - PADDLE_HALF_WIDTH,
    }
}

/// The ball's centre lies inside the paddle's hit-box: the paddle rectangle
/// outset by the ball radius on every side.
pub open spec fn in_hit_box(b: Ball, p: Paddle) -> bool {
    let px = paddle_center_x(p.side);
    &&& px - PADDLE_HALF_WIDTH - b.radius <= b.x <= px + PADDLE_HALF_WIDTH + b.radius
    &&& p.y - PADDLE_HALF_HEIGHT - b.radius <= b.y <= p.y + PADDLE_HALF_HEIGHT + b.radius
}

/// The ball is moving toward the given side's wall.
pub open spec fn moving_toward(b: Ball, side: Side) -> bool {
    match side {
        Side::Left => b.vx < 0,
        Side::Right => b.vx > 0,
    }
}

/// A bounce off this paddle applies this frame.
pub open spec fn paddle_hit(b: Ball, p: Paddle) -> bool {
    in_hit_box(b, p) && moving_toward(b, p.side)
}

/// What one paddle's bounce does: reverse and speed up the horizontal
/// velocity on a hit, nothing otherwise.
pub open spec fn paddle_deflect(b: Ball, p: Paddle) -> Ball {
    if paddle_hit(b, p) {
        Ball { vx: flip_speed_spec(b.vx as int), ..b }
    } else {
        b
    }
}

/// What the whole Collision stage does: the wall bounce, then the left
/// paddle's bounce, then the right paddle's.  Position is never touched.
pub open spec fn deflect(b: Ball, left: Paddle, right: Paddle) -> Ball {
    paddle_deflect(paddle_deflect(wall_deflect(b), left), right)
}

/// Some bounce -- wall or paddle -- applies this frame.
pub open spec fn deflect_cue(b: Ball, left: Paddle, right: Paddle) -> bool {
    ||| wall_hit(b)
    ||| paddle_hit(wall_deflect(b), left)
    ||| paddle_hit(paddle_deflect(wall_deflect(b), left), right)
}

/// Whether `(x, y)` lies in the closed rectangle spanned by the given
/// bounds.
pub fn point_in_rect(x: i64, y: i64, left: i64, bottom: i64, right: i64, top: i64) -> (inside:
    bool)
    ensures
        inside == (left <= x <= right && bottom <= y <= top),
{
    x >= left && x <= right && y >= bottom && y <= top
}

/// The Collision stage.
pub struct BounceSystem;

impl BounceSystem {
    /// Bounce the ball off one paddle if its hit-box is entered against the
    /// ball's direction.  Returns whether it was.
    fn bounce_off_paddle(ball: &mut Ball, p: &Paddle) -> (hit: bool)
        requires
            old(ball).wf(),
            p.wf(),
        ensures
            *final(ball) == paddle_deflect(*old(ball), *p),
            final(ball).wf(),
            hit == paddle_hit(*old(ball), *p),
    {
        let px: i64 = match p.side {
            Side::Left => PADDLE_HALF_WIDTH,
            Side::Right => ARENA_WIDTH - PADDLE_HALF_WIDTH,
        };
        let lo_x: i64 = px - PADDLE_HALF_WIDTH - ball.radius;
        let hi_x: i64 = px + PADDLE_HALF_WIDTH + ball.radius;
        let lo_y: i64 = p.y - PADDLE_HALF_HEIGHT - ball.radius;
        let hi_y: i64 = p.y + PADDLE_HALF_HEIGHT + ball.radius;
        if point_in_rect(ball.x, ball.y, lo_x, lo_y, hi_x, hi_y) {
            let toward: bool = match p.side {
                Side::Left => ball.vx < 0,
                Side::Right => ball.vx > 0,
            };
            if toward {
                ball.vx = flip_speed(ball.vx);
                return true;
            }
        }
        false
    }

    /// Resolve one frame's collisions for the ball against the walls and
    /// both paddles.  Returns whether anything bounced -- the cue for the
    /// bounce sound.
    pub fn run(ball: &mut Ball, left: &Paddle, right: &Paddle) -> (bounced: bool)
        requires
            old(ball).wf(),
            left.wf(),
            right.wf(),
        ensures
            *final(ball) == deflect(*old(ball), *left, *right),
            final(ball).wf(),
            bounced == deflect_cue(*old(ball), *left, *right),
    {
        let mut hit: bool = false;
        if (ball.y <= ball.radius && ball.vy < 0)
            || (ball.y >= ARENA_HEIGHT - ball.radius && ball.vy > 0) {
            ball.vy = -ball.vy;
            hit = true;
        }
        let hit_left: bool = Self::bounce_off_paddle(ball, left);
        let hit_right: bool = Self::bounce_off_paddle(ball, right);
        hit || hit_left || hit_right
    }
}

/// Law: a ball touching the floor while falling has exactly its vertical
/// velocity reversed by the Collision stage, and the stage moves nothing:
/// both coordinates are left as they were.
pub proof fn lemma_wall_reflection(b: Ball, left: Paddle, right: Paddle)
    requires
        b.wf(),
        b.y == b.radius,
        b.vy < 0,
    ensures
        deflect(b, left, right).vy == -b.vy,
        deflect(b, left, right).y == b.y,
        deflect(b, left, right).x == b.x,
{
}

/// The sped-up reversal of `vx` stays under the saturation cap.
pub open spec fn speed_up_applies(b: Ball) -> bool {
    crate::model::speed_up(if b.vx >= 0 {
        b.vx as int
    } else {
        -b.vx as int
    }) <= VEL_LIMIT
}

/// Law: a ball inside the left paddle's hit-box and moving left -- and
/// outside the right paddle's hit-box -- leaves the Collision stage with
/// horizontal velocity `-vx * 105 / 100`, as long as the sped-up magnitude
/// stays under the saturation cap.  Its position is untouched.
pub proof fn lemma_paddle_reflection(b: Ball, left: Paddle, right: Paddle)
    requires
        b.wf(),
        left.wf(),
        right.wf(),
        left.side is Left,
        right.side is Right,
        in_hit_box(b, left),
        !in_hit_box(b, right),
        b.vx < 0,
        speed_up_applies(b),
    ensures
        deflect(b, left, right).vx == (-b.vx) * 105 / 100,
        deflect(b, left, right).x == b.x,
        deflect(b, left, right).y == b.y,
{
}

} // verus!
