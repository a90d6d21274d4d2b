//! The data model of the simulation: arena configuration, the ball, the two
//! paddles, the score board, and the shared fixed-point arithmetic.
//!
//! Lengths are measured in milli-units (1000 milli-units to one arena unit),
//! velocities in milli-units per second, and time in milliseconds, so the
//! position a velocity `v` gains over `dt` milliseconds is `v * dt / 1000`
//! milli-units, truncated toward zero.

use vstd::prelude::*;

verus! {

use crate::digits::{decimal_digits, decimal_string};

/// Milli-units per arena unit.
pub const UNIT: i64 = 1_000;

/// Arena width in milli-units (100 units).
pub const ARENA_WIDTH: i64 = 100_000;

/// Arena height in milli-units (100 units).
pub const ARENA_HEIGHT: i64 = 100_000;

/// X coordinate of the arena's centre: half the width.
pub const ARENA_CENTER_X: i64 = 50_000;

/// Y coordinate of the arena's centre: half the height.
pub const ARENA_CENTER_Y: i64 = 50_000;

/// Paddle width in milli-units (4 units).
pub const PADDLE_WIDTH: i64 = 4_000;

/// Paddle height in milli-units (16 units).
pub const PADDLE_HEIGHT: i64 = 16_000;

/// Half the paddle width.
pub const PADDLE_HALF_WIDTH: i64 = 2_000;

/// Half the paddle height.
pub const PADDLE_HALF_HEIGHT: i64 = 8_000;

/// Lowest paddle centre that keeps the paddle inside the arena.
pub const PADDLE_Y_MIN: i64 = PADDLE_HALF_HEIGHT;

/// Highest paddle centre that keeps the paddle inside the arena.
pub const PADDLE_Y_MAX: i64 = ARENA_HEIGHT - PADDLE_HALF_HEIGHT;

/// Radius of the ball in milli-units (2 units).
pub const BALL_RADIUS: i64 = 2_000;

/// Horizontal speed the ball serves with, milli-units per second.
pub const BALL_VELOCITY_X: i64 = 65_000;

/// Vertical speed the ball serves with, milli-units per second.
pub const BALL_VELOCITY_Y: i64 = 50_000;

/// Speed of a steered paddle, milli-units per second.
pub const PADDLE_SPEED: i64 = 50_000;

/// The serve countdown armed after every point, in milliseconds.
pub const SERVE_DELAY: u64 = 1_000;

/// Largest elapsed time a single frame may report, in milliseconds.
pub const DT_MAX: u64 = 1_000_000;

/// Velocity components are kept within this magnitude; the paddle speed-up
/// saturates here, far above any speed play can reach.
pub const VEL_LIMIT: i64 = 1_000_000_000;

/// Position components are kept within this magnitude, far outside the arena.
pub const POS_LIMIT: i64 = 2_000_000_000_000;

/// The negated position bound.
pub const POS_LIMIT_NEG: i64 = -2_000_000_000_000;

/// A point is only ever shown with at most three digits.
pub const SCORE_CAP: u32 = 999;

/// First player to this many points wins the match.
pub const WIN_SCORE: u32 = 10;

/// Numerator of the speed multiplier a paddle hit applies.
pub const SPEED_UP_NUM: u64 = 105;

/// Denominator of the speed multiplier a paddle hit applies.
pub const SPEED_UP_DEN: u64 = 100;

/// Which side of the arena a paddle defends.
#[derive(Clone, Copy, Debug, PartialEq, Eq, Structural)]
pub enum Side {
    Left,
    Right,
}

/// Which of a pair of mutually exclusive option buttons is pressed.
#[derive(Clone, Copy, Debug, PartialEq, Eq, Structural)]
pub enum Pressed {
    Left,
    Right,
}

/// The ball: centre position, velocity, radius, and the serve countdown that
/// freezes it between a point and the next rally.  `serve_countdown` is
/// `Some(t)` while the ball still waits `t` milliseconds before launching,
/// `None` while the ball is live.
#[derive(Clone, Copy, Debug)]
pub struct Ball {
    pub x: i64,
    pub y: i64,
    pub vx: i64,
    pub vy: i64,
    pub radius: i64,
    pub serve_countdown: Option<u64>,
}

impl Ball {
    /// A well-formed ball: positive radius that fits the arena, and position
    /// and velocity within the representable range.
    pub open spec fn wf(self) -> bool {
        &&& 0 < self.radius
        &&& 2 * self.radius <= ARENA_WIDTH
        &&& 2 * self.radius <= ARENA_HEIGHT
        &&& POS_LIMIT_NEG <= self.x <= POS_LIMIT
        &&& POS_LIMIT_NEG <= self.y <= POS_LIMIT
        &&& -VEL_LIMIT <= self.vx <= VEL_LIMIT
        &&& -VEL_LIMIT <= self.vy <= VEL_LIMIT
    }

    /// A ball waiting at the arena's centre for the serve countdown to run
    /// out, about to launch with velocity `(vx, vy)`.
    pub fn new(radius: i64, vx: i64, vy: i64) -> (b: Ball)
        requires
            0 < radius,
            2 * radius <= ARENA_WIDTH,
            2 * radius <= ARENA_HEIGHT,
            -VEL_LIMIT <= vx <= VEL_LIMIT,
            -VEL_LIMIT <= vy <= VEL_LIMIT,
        ensures
            b == (Ball {
                x: ARENA_CENTER_X,
                y: ARENA_CENTER_Y,
                vx: vx,
                vy: vy,
                radius: radius,
                serve_countdown: Some(SERVE_DELAY),
            }),
            b.wf(),
    {
        Ball {
            x: ARENA_CENTER_X,
            y: ARENA_CENTER_Y,
            vx: vx,
            vy: vy,
            radius: radius,
            serve_countdown: Some(SERVE_DELAY),
        }
    }

    /// Whether the serve indicator should be shown: the ball is still waiting
    /// for its countdown.
    pub fn serve_visible(&self) -> (v: bool)
        ensures
            v == (self.serve_countdown is Some),
    {
        self.serve_countdown.is_some()
    }
}

/// A paddle: the side it defends, the y coordinate of its centre, and its
/// dimensions.  Its x coordinate is fixed by its side, so only y moves.
#[derive(Clone, Copy, Debug)]
pub struct Paddle {
    pub side: Side,
    pub y: i64,
    pub width: i64,
    pub height: i64,
}

impl Paddle {
    /// A well-formed paddle: the configured dimensions, with its whole
    /// rectangle inside the arena.
    pub open spec fn wf(self) -> bool {
        &&& self.width == PADDLE_WIDTH
        &&& self.height == PADDLE_HEIGHT
        &&& PADDLE_Y_MIN <= self.y <= PADDLE_Y_MAX
    }

    /// A paddle for the given side, at rest at the arena's vertical centre.
    pub fn new(side: Side) -> (p: Paddle)
        ensures
            p == (Paddle {
                side: side,
                y: ARENA_CENTER_Y,
                width: PADDLE_WIDTH,
                height: PADDLE_HEIGHT,
            }),
            p.wf(),
    {
        Paddle { side: side, y: ARENA_CENTER_Y, width: PADDLE_WIDTH, height: PADDLE_HEIGHT }
    }

    /// The fixed x coordinate of this paddle's centre: each side hugs its
    /// own wall.
    pub open spec fn x_center(self) -> int {
        match self.side {
            Side::Left => PADDLE_HALF_WIDTH as int,
            Side::Right => ARENA_WIDTH - PADDLE_HALF_WIDTH,
        }
    }
}

/// The two players' scores for one match.
#[derive(Clone, Copy, Debug)]
pub struct ScoreBoard {
    pub score_left: u32,
    pub score_right: u32,
}

impl ScoreBoard {
    /// Scores never pass the three-digit display cap.
    pub open spec fn wf(self) -> bool {
        &&& self.score_left <= SCORE_CAP
        &&& self.score_right <= SCORE_CAP
    }

    /// The left player's score as the digits the score board displays.
    pub fn left_text(&self) -> (s: String)
        ensures
            s@ == decimal_digits(self.score_left as nat),
    {
        decimal_string(self.score_left as u64)
    }

    /// The right player's score as the digits the score board displays.
    pub fn right_text(&self) -> (s: String)
        ensures
            s@ == decimal_digits(self.score_right as nat),
    {
        decimal_string(self.score_right as u64)
    }
}

impl Default for ScoreBoard {
    /// A fresh board: no points on either side.
    fn default() -> (s: ScoreBoard)
        ensures
            s == (ScoreBoard { score_left: 0, score_right: 0 }),
            s.wf(),
    {
        ScoreBoard { score_left: 0, score_right: 0 }
    }
}

/// The held directional input sampled once per frame: whether each player is
/// holding the up and down controls.
#[derive(Clone, Copy, Debug, PartialEq, Eq, Structural)]
pub struct HeldInput {
    pub left_up: bool,
    pub left_down: bool,
    pub right_up: bool,
    pub right_down: bool,
}

/// The one-shot audio cues a frame may fire, each at most once per frame.
#[derive(Clone, Copy, Debug, PartialEq, Eq, Structural)]
pub struct AudioCues {
    pub bounce: bool,
    pub score: bool,
}

impl AudioCues {
    /// The cues of a frame in which nothing audible happened.
    pub open spec fn silent() -> AudioCues {
        AudioCues { bounce: false, score: false }
    }
}

/// `v * dt / 1000`, truncated toward zero: the distance in milli-units that a
/// velocity of `v` milli-units per second covers in `dt` milliseconds.
pub open spec fn scaled(v: int, dt: int) -> int {
    if v >= 0 {
        v * dt / 1000
    } else {
        -((-v) * dt / 1000)
    }
}

/// Positions saturate at the representable range, far outside the arena.
pub open spec fn clamp_pos(p: int) -> i64 {
    if p > POS_LIMIT {
        POS_LIMIT
    } else if p < POS_LIMIT_NEG {
        POS_LIMIT_NEG
    } else {
        p as i64
    }
}

/// Saturate a position at the representable range.
pub fn clamp_position(p: i64) -> (r: i64)
    ensures
        r == clamp_pos(p as int),
{
    if p > POS_LIMIT {
        POS_LIMIT
    } else if p < POS_LIMIT_NEG {
        POS_LIMIT_NEG
    } else {
        p
    }
}

/// The distance a velocity of `v` milli-units per second covers in `dt`
/// milliseconds, truncated toward zero.
pub fn scaled_delta(v: i64, dt: u64) -> (d: i64)
    requires
        -VEL_LIMIT <= v <= VEL_LIMIT,
        dt <= DT_MAX,
    ensures
        d == scaled(v as int, dt as int),
        -1_000_000_000_000 <= d <= 1_000_000_000_000,
{
    let mag: u64 = if v >= 0 {
        v as u64
    } else {
        (-v) as u64
    };
    proof {
        assert(mag * dt <= 1_000_000_000_000_000) by (nonlinear_arith)
            requires
                mag <= 1_000_000_000,
                dt <= 1_000_000,
        ;
    }
    let prod: u64 = mag * dt;
    let q: u64 = prod / 1000;
    if v >= 0 {
        q as i64
    } else {
        -(q as i64)
    }
}

/// The magnitude of a velocity after a paddle hit, before the saturation cap.
pub open spec fn speed_up(m: int) -> int {
    m * (SPEED_UP_NUM as int) / (SPEED_UP_DEN as int)
}

/// A paddle hit reverses a velocity and multiplies its magnitude by the
/// configured speed-up, saturating at `VEL_LIMIT`.
pub open spec fn flip_speed_spec(v: int) -> i64 {
    let m = if v >= 0 {
        v
    } else {
        -v
    };
    let boosted = if speed_up(m) > VEL_LIMIT {
        VEL_LIMIT as int
    } else {
        speed_up(m)
    };
    if v >= 0 {
        (-boosted) as i64
    } else {
        boosted as i64
    }
}

/// The sped-up reversal of a bounded velocity is itself bounded.
pub proof fn lemma_flip_speed_bounds(v: int)
    requires
        -VEL_LIMIT <= v <= VEL_LIMIT,
    ensures
        -VEL_LIMIT <= flip_speed_spec(v) <= VEL_LIMIT,
{
    let m = if v >= 0 {
        v
    } else {
        -v
    };
    assert(speed_up(m) >= 0) by {
        vstd::arithmetic::mul::lemma_mul_nonnegative(m, SPEED_UP_NUM as int);
        vstd::arithmetic::div_mod::lemma_div_pos_is_pos(m * (SPEED_UP_NUM as int), SPEED_UP_DEN as int);
    }
}

/// Reverse a velocity and apply the paddle speed-up, saturating at
/// `VEL_LIMIT`.
pub fn flip_speed(v: i64) -> (r: i64)
    requires
        -VEL_LIMIT <= v <= VEL_LIMIT,
    ensures
        r == flip_speed_spec(v as int),
        -VEL_LIMIT <= r <= VEL_LIMIT,
{
    let mag: u64 = if v >= 0 {
        v as u64
    } else {
        (-v) as u64
    };
    let boosted: u64 = mag * SPEED_UP_NUM / SPEED_UP_DEN;
    let capped: u64 = if boosted > (VEL_LIMIT as u64) {
        VEL_LIMIT as u64
    } else {
        boosted
    };
    if v >= 0 {
        -(capped as i64)
    } else {
        capped as i64
    }
}

} // verus!
