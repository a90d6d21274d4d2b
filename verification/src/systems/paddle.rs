//! The Paddle Control stage: turns the held up/down input into paddle
//! motion, clamped so the paddle never leaves the arena.

use vstd::prelude::*;

verus! {

use crate::model::{
    scaled, scaled_delta, Paddle, DT_MAX, PADDLE_SPEED, PADDLE_Y_MAX, PADDLE_Y_MIN,
};

/// Clamp a paddle centre so the paddle rectangle stays inside the arena.
pub open spec fn clamp_paddle_y(y: int) -> i64 {
    if y < PADDLE_Y_MIN {
        PADDLE_Y_MIN
    } else if y > PADDLE_Y_MAX {
        PADDLE_Y_MAX
    } else {
        y as i64
    }
}

/// What the Paddle Control stage does to one paddle over `dt` milliseconds:
/// holding only "up" moves it up by `PADDLE_SPEED * dt / 1000`, holding only
/// "down" moves it down by the same amount, anything else leaves it still;
/// the result is clamped to the arena.
pub open spec fn steer(p: Paddle, up: bool, down: bool, dt: u64) -> Paddle {
    let step = scaled(PADDLE_SPEED as int, dt as int);
    let target: int = if up && !down {
        p.y + step
    } else if down && !up {
        p.y - step
    } else {
        p.y as int
    };
    Paddle { y: clamp_paddle_y(target), ..p }
}

/// The Paddle Control stage.
pub struct PaddleSystem;

impl PaddleSystem {
    /// Move one paddle by one frame of held input.
    pub fn run(paddle: &mut Paddle, up: bool, down: bool, dt: u64)
        requires
            old(paddle).wf(),
            dt <= DT_MAX,
        ensures
            *final(paddle) == steer(*old(paddle), up, down, dt),
            final(paddle).wf(),
    {
        let delta: i64 = scaled_delta(PADDLE_SPEED, dt);
        proof {
            vstd::arithmetic::mul::lemma_mul_nonnegative(PADDLE_SPEED as int, dt as int);
            vstd::arithmetic::div_mod::lemma_div_pos_is_pos(PADDLE_SPEED as int * dt as int, 1000);
            assert(delta >= 0);
        }
        if up && !down {
            let moved: i64 = paddle.y + delta;
            paddle.y = if moved > PADDLE_Y_MAX {
                PADDLE_Y_MAX
            } else {
                moved
            };
        } else if down && !up {
            let moved: i64 = paddle.y - delta;
            paddle.y = if moved < PADDLE_Y_MIN {
                PADDLE_Y_MIN
            } else {
                moved
            };
        }
    }
}

} // verus!
