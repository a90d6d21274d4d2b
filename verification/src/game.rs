//! The screens of the game and the machine that sequences them.
//!
//! A `Pong` value is one playing session: the ball, the two paddles and the
//! score board, living from the moment the playing screen is entered to the
//! moment it is replaced.  The `Game` machine keeps a stack of screens --
//! pause is pushed on top of playing and popped back off, every other
//! transition replaces the whole stack -- and feeds input events and frame
//! ticks to whichever screen is on top.

use vstd::prelude::*;

verus! {

use crate::model::{
    AudioCues, Ball, HeldInput, Paddle, Pressed, ScoreBoard, Side, BALL_RADIUS, BALL_VELOCITY_X,
    BALL_VELOCITY_Y, DT_MAX, SCORE_CAP,
};
use crate::systems::bounce::{deflect, deflect_cue, BounceSystem};
use crate::systems::move_balls::{move_ball, MoveBallSystem};
use crate::systems::paddle::{steer, PaddleSystem};
use crate::systems::score::{ball_out, serve_ball, tally, ScoreSystem};
use crate::systems::winner::{match_over, WinnerSystem};

/// One playing session: the entities created on entering the playing screen
/// and destroyed on leaving it.
#[derive(Clone, Copy, Debug)]
pub struct Pong {
    pub ball: Ball,
    pub left: Paddle,
    pub right: Paddle,
    pub scores: ScoreBoard,
}

/// The state a fresh playing session starts in: ball waiting at the centre
/// for its first serve, paddles at rest, no points.
pub open spec fn init_session() -> Pong {
    Pong {
        ball: Ball {
            x: crate::model::ARENA_CENTER_X,
            y: crate::model::ARENA_CENTER_Y,
            vx: BALL_VELOCITY_X,
            vy: BALL_VELOCITY_Y,
            radius: BALL_RADIUS,
            serve_countdown: Some(crate::model::SERVE_DELAY),
        },
        left: Paddle {
            side: Side::Left,
            y: crate::model::ARENA_CENTER_Y,
            width: crate::model::PADDLE_WIDTH,
            height: crate::model::PADDLE_HEIGHT,
        },
        right: Paddle {
            side: Side::Right,
            y: crate::model::ARENA_CENTER_Y,
            width: crate::model::PADDLE_WIDTH,
            height: crate::model::PADDLE_HEIGHT,
        },
        scores: ScoreBoard { score_left: 0, score_right: 0 },
    }
}

/// The ball as it stands after Movement, Paddle Control and Collision, just
/// before Scoring looks at it.
pub open spec fn collided_ball(p: Pong, dt: u64, held: HeldInput) -> Ball {
    deflect(
        move_ball(p.ball, dt),
        steer(p.left, held.left_up, held.left_down, dt),
        steer(p.right, held.right_up, held.right_down, dt),
    )
}

/// What one simulated frame does to a session: the four stages in their
/// fixed order, and the audio cues the frame fires.
pub open spec fn session_tick(p: Pong, dt: u64, held: HeldInput) -> (Pong, AudioCues) {
    let left2 = steer(p.left, held.left_up, held.left_down, dt);
    let right2 = steer(p.right, held.right_up, held.right_down, dt);
    let b2 = collided_ball(p, dt, held);
    (
        Pong { ball: serve_ball(b2), left: left2, right: right2, scores: tally(b2, p.scores) },
        AudioCues { bounce: deflect_cue(move_ball(p.ball, dt), left2, right2), score: ball_out(b2) },
    )
}

impl Pong {
    /// A well-formed session: every entity well-formed and each paddle on
    /// its own side.
    pub open spec fn wf(self) -> bool {
        &&& self.ball.wf()
        &&& self.left.wf()
        &&& self.right.wf()
        &&& self.left.side is Left
        &&& self.right.side is Right
        &&& self.scores.wf()
    }

    /// Create the entities of a fresh playing session.
    pub fn new() -> (p: Pong)
        ensures
            p == init_session(),
            p.wf(),
    {
        Pong {
            ball: Ball::new(BALL_RADIUS, BALL_VELOCITY_X, BALL_VELOCITY_Y),
            left: Paddle::new(Side::Left),
            right: Paddle::new(Side::Right),
            scores: ScoreBoard { score_left: 0, score_right: 0 },
        }
    }

    /// Run one simulated frame: Movement, then Paddle Control, then
    /// Collision, then Scoring.  Returns the frame's audio cues.
    pub fn tick(&mut self, dt: u64, held: HeldInput) -> (cues: AudioCues)
        requires
            old(self).wf(),
            dt <= DT_MAX,
        ensures
            *final(self) == session_tick(*old(self), dt, held).0,
            cues == session_tick(*old(self), dt, held).1,
            final(self).wf(),
    {
        let _serve_done: bool = MoveBallSystem::run(&mut self.ball, dt);
        PaddleSystem::run(&mut self.left, held.left_up, held.left_down, dt);
        PaddleSystem::run(&mut self.right, held.right_up, held.right_down, dt);
        let bounced: bool = BounceSystem::run(&mut self.ball, &self.left, &self.right);
        let scored: bool = ScoreSystem::run(&mut self.ball, &mut self.scores);
        AudioCues { bounce: bounced, score: scored }
    }
}

/// One simulated frame keeps the session well-formed.
pub proof fn lemma_session_tick_wf(p: Pong, dt: u64, held: HeldInput)
    requires
        p.wf(),
        dt <= DT_MAX,
    ensures
        session_tick(p, dt, held).0.wf(),
{
    let b1 = move_ball(p.ball, dt);
    let left2 = steer(p.left, held.left_up, held.left_down, dt);
    let b1a = crate::systems::bounce::wall_deflect(b1);
    let b1b = crate::systems::bounce::paddle_deflect(b1a, left2);
    crate::model::lemma_flip_speed_bounds(b1a.vx as int);
    crate::model::lemma_flip_speed_bounds(b1b.vx as int);
}

/// Law (scoring invariant): one frame raises the two scores' total by at
/// most one point, and raises it at all only when the ball stands past the
/// left or right bound once collisions are resolved -- in which case the
/// frame also fires the score cue.
pub proof fn lemma_one_point_per_tick(p: Pong, dt: u64, held: HeldInput)
    requires
        p.wf(),
        dt <= DT_MAX,
    ensures
        ({
            let after = session_tick(p, dt, held).0.scores;
            let before = p.scores;
            &&& before.score_left + before.score_right <= after.score_left + after.score_right
            &&& after.score_left + after.score_right <= before.score_left + before.score_right
                + 1
            &&& (after.score_left + after.score_right > before.score_left + before.score_right
                ==> ball_out(collided_ball(p, dt, held)))
            &&& (after.score_left + after.score_right > before.score_left + before.score_right
                ==> session_tick(p, dt, held).1.score)
        }),
{
}

/// Law (serve freeze): while the ball waits at the arena's centre for its
/// serve countdown, a whole frame does to it exactly what the Movement
/// stage does -- the countdown shrinks and nothing else about the ball
/// changes, no bounce fires, and no point is scored.  The centre is out of
/// both hit-boxes and both scoring bands for any radius play can use.
pub proof fn lemma_serving_tick(p: Pong, dt: u64, held: HeldInput)
    requires
        p.wf(),
        dt <= DT_MAX,
        p.ball.x == crate::model::ARENA_CENTER_X,
        p.ball.y == crate::model::ARENA_CENTER_Y,
        p.ball.radius < 46_000,
        p.ball.serve_countdown is Some,
    ensures
        session_tick(p, dt, held).0.ball == move_ball(p.ball, dt),
        session_tick(p, dt, held).0.scores == p.scores,
        session_tick(p, dt, held).1 == AudioCues::silent(),
{
}

/// A playing session iterated over `k` frames of the same elapsed time and
/// held input.
pub open spec fn run_session(p: Pong, dt: u64, held: HeldInput, k: nat) -> Pong
    decreases k,
{
    if k == 0 {
        p
    } else {
        session_tick(run_session(p, dt, held, (k - 1) as nat), dt, held).0
    }
}

/// Law (score cap): however many frames run, the session stays well-formed
/// and neither score ever passes the display cap.
pub proof fn lemma_score_cap(p: Pong, dt: u64, held: HeldInput, k: nat)
    requires
        p.wf(),
        dt <= DT_MAX,
    ensures
        run_session(p, dt, held, k).wf(),
        run_session(p, dt, held, k).scores.score_left <= SCORE_CAP,
        run_session(p, dt, held, k).scores.score_right <= SCORE_CAP,
    decreases k,
{
    if k >= 1 {
        lemma_score_cap(p, dt, held, (k - 1) as nat);
        lemma_session_tick_wf(run_session(p, dt, held, (k - 1) as nat), dt, held);
    }
}

/// The options the settings screen offers: whether the background music
/// plays, and which control scheme the first player uses.
#[derive(Clone, Copy, Debug)]
pub struct Settings {
    pub music_on: bool,
    pub controls: Pressed,
}

/// The options a freshly opened settings screen shows.
pub open spec fn init_settings() -> Settings {
    Settings { music_on: true, controls: Pressed::Left }
}

impl Settings {
    /// Open the settings screen with its defaults.
    pub fn new() -> (s: Settings)
        ensures
            s == init_settings(),
    {
        Settings { music_on: true, controls: Pressed::Left }
    }
}

/// One screen of the game, carrying whatever state it owns.
#[derive(Clone, Copy, Debug)]
pub enum Screen {
    Welcome,
    Settings(Settings),
    Playing(Pong),
    Pause,
    GameOver,
}

/// A discrete semantic input event, already decoded from whatever keys or
/// clicks the presentation layer saw.
#[derive(Clone, Copy, Debug, PartialEq, Eq, Structural)]
pub enum Event {
    /// The global quit action: terminate from any screen.
    Quit,
    /// The pause action: suspends play, and resumes it when paused.
    Pause,
    /// Start a match, from the welcome or settings screen.
    Start,
    /// Open the settings screen, from the welcome screen.
    OpenSettings,
    /// Leave the settings screen for the welcome screen.
    Back,
    /// The confirm action that dismisses the game-over screen.
    Confirm,
    /// Toggle the background music, on the settings screen.
    ToggleMusic,
    /// Toggle the first player's control scheme, on the settings screen.
    ToggleControls,
}

/// Whether a screen holds well-formed state.
pub open spec fn screen_wf(s: Screen) -> bool {
    match s {
        Screen::Playing(p) => p.wf(),
        _ => true,
    }
}

/// The whole game: the screen stack and whether the process should still be
/// running.  Terminating empties the stack -- every screen's entities are
/// destroyed.
#[derive(Clone, Debug)]
pub struct Game {
    pub stack: Vec<Screen>,
    pub running: bool,
}

/// What one input event does to the screen stack.  The pause screen is
/// pushed onto the playing screen and popped off it; every other transition
/// replaces the stack wholesale; quitting -- and confirming game over --
/// terminates.  An event that means nothing to the top screen is ignored.
pub open spec fn step(stack: Seq<Screen>, running: bool, ev: Event) -> (Seq<Screen>, bool) {
    if !running || stack.len() == 0 {
        (stack, running)
    } else {
        match ev {
            Event::Quit => (Seq::<Screen>::empty(), false),
            Event::Pause => match stack.last() {
                Screen::Playing(_) => (stack.push(Screen::Pause), true),
                Screen::Pause => (stack.drop_last(), true),
                _ => (stack, true),
            },
            Event::Start => match stack.last() {
                Screen::Welcome => (seq![Screen::Playing(init_session())], true),
                Screen::Settings(_) => (seq![Screen::Playing(init_session())], true),
                _ => (stack, true),
            },
            Event::OpenSettings => match stack.last() {
                Screen::Welcome => (seq![Screen::Settings(init_settings())], true),
                _ => (stack, true),
            },
            Event::Back => match stack.last() {
                Screen::Settings(_) => (seq![Screen::Welcome], true),
                _ => (stack, true),
            },
            Event::Confirm => match stack.last() {
                Screen::GameOver => (Seq::<Screen>::empty(), false),
                _ => (stack, true),
            },
            Event::ToggleMusic => match stack.last() {
                Screen::Settings(s) => (
                    seq![Screen::Settings(Settings { music_on: !s.music_on, ..s })],
                    true,
                ),
                _ => (stack, true),
            },
            Event::ToggleControls => match stack.last() {
                Screen::Settings(s) => (
                    seq![
                        Screen::Settings(
                            Settings {
                                controls: match s.controls {
                                    Pressed::Left => Pressed::Right,
                                    Pressed::Right => Pressed::Left,
                                },
                                ..s
                            },
                        )
                    ],
                    true,
                ),
                _ => (stack, true),
            },
        }
    }
}

/// What one frame does to the whole game.  Only a playing screen that is on
/// top simulates; first the winner check runs, and a concluded match is
/// replaced by the game-over screen instead of simulating.  A paused or
/// menu screen lets the frame pass without touching any state.
pub open spec fn tick_step(stack: Seq<Screen>, running: bool, dt: u64, held: HeldInput) -> (
    Seq<Screen>,
    bool,
    AudioCues,
) {
    if !running || stack.len() != 1 {
        (stack, running, AudioCues::silent())
    } else {
        match stack[0] {
            Screen::Playing(p) => if match_over(p.scores) {
                (seq![Screen::GameOver], true, AudioCues::silent())
            } else {
                (
                    seq![Screen::Playing(session_tick(p, dt, held).0)],
                    true,
                    session_tick(p, dt, held).1,
                )
            },
            _ => (stack, running, AudioCues::silent()),
        }
    }
}

impl Game {
    /// A well-formed game: while running, the stack is either one non-pause
    /// screen or the pause screen atop the playing screen, each screen
    /// well-formed; once terminated, every screen is gone.
    pub open spec fn wf(self) -> bool {
        &&& if self.running {
            ||| (self.stack@.len() == 1 && !(self.stack@[0] is Pause))
            ||| (self.stack@.len() == 2 && self.stack@[0] is Playing && self.stack@[1] is Pause)
        } else {
            self.stack@.len() == 0
        }
        &&& forall|i: int| 0 <= i < self.stack@.len() ==> screen_wf(#[trigger] self.stack@[i])
    }

    /// Boot the game on the welcome screen.
    pub fn new() -> (g: Game)
        ensures
            g.wf(),
            g.running,
            g.stack@ == seq![Screen::Welcome],
    {
        let mut stack: Vec<Screen> = Vec::new();
        stack.push(Screen::Welcome);
        proof {
            assert(stack@ =~= seq![Screen::Welcome]);
        }
        Game { stack, running: true }
    }

    /// Feed one input event to the screen on top of the stack.
    pub fn handle_event(&mut self, ev: Event)
        requires
            old(self).wf(),
        ensures
            final(self).wf(),
            final(self).stack@ == step(old(self).stack@, old(self).running, ev).0,
            final(self).running == step(old(self).stack@, old(self).running, ev).1,
    {
        if !self.running {
            return ;
        }
        let ghost s0 = self.stack@;
        match ev {
            Event::Quit => {
                self.running = false;
                self.stack.clear();
            },
            Event::Pause => {
                if let Some(top) = self.stack.pop() {
                    match top {
                        Screen::Playing(p) => {
                            self.stack.push(Screen::Playing(p));
                            self.stack.push(Screen::Pause);
                            proof {
                                assert(self.stack@ =~= s0.push(Screen::Pause));
                            }
                        },
                        Screen::Pause => {
                        },
                        other => {
                            self.stack.push(other);
                            proof {
                                assert(self.stack@ =~= s0);
                            }
                        },
                    }
                }
            },
            Event::Start => {
                if let Some(top) = self.stack.pop() {
                    match top {
                        Screen::Welcome => {
                            self.stack.push(Screen::Playing(Pong::new()));
                            proof {
                                assert(self.stack@ =~= seq![
                                    Screen::Playing(init_session()),
                                ]);
                            }
                        },
                        Screen::Settings(_) => {
                            self.stack.push(Screen::Playing(Pong::new()));
                            proof {
                                assert(self.stack@ =~= seq![
                                    Screen::Playing(init_session()),
                                ]);
                            }
                        },
                        other => {
                            self.stack.push(other);
                            proof {
                                assert(self.stack@ =~= s0);
                            }
                        },
                    }
                }
            },
            Event::OpenSettings => {
                if let Some(top) = self.stack.pop() {
                    match top {
                        Screen::Welcome => {
                            self.stack.push(Screen::Settings(Settings::new()));
                            proof {
                                assert(self.stack@ =~= seq![
                                    Screen::Settings(init_settings()),
                                ]);
                            }
                        },
                        other => {
                            self.stack.push(other);
                            proof {
                                assert(self.stack@ =~= s0);
                            }
                        },
                    }
                }
            },
            Event::Back => {
                if let Some(top) = self.stack.pop() {
                    match top {
                        Screen::Settings(_) => {
                            self.stack.push(Screen::Welcome);
                            proof {
                                assert(self.stack@ =~= seq![Screen::Welcome]);
                            }
                        },
                        other => {
                            self.stack.push(other);
                            proof {
                                assert(self.stack@ =~= s0);
                            }
                        },
                    }
                }
            },
            Event::Confirm => {
                if let Some(top) = self.stack.pop() {
                    match top {
                        Screen::GameOver => {
                            self.running = false;
                            self.stack.clear();
                        },
                        other => {
                            self.stack.push(other);
                            proof {
                                assert(self.stack@ =~= s0);
                            }
                        },
                    }
                }
            },
            Event::ToggleMusic => {
                if let Some(top) = self.stack.pop() {
                    match top {
                        Screen::Settings(s) => {
                            self.stack.push(
                                Screen::Settings(Settings { music_on: !s.music_on, ..s }),
                            );
                            proof {
                                assert(self.stack@ =~= seq![
                                    Screen::Settings(Settings { music_on: !s.music_on, ..s }),
                                ]);
                            }
                        },
                        other => {
                            self.stack.push(other);
                            proof {
                                assert(self.stack@ =~= s0);
                            }
                        },
                    }
                }
            },
            Event::ToggleControls => {
                if let Some(top) = self.stack.pop() {
                    match top {
                        Screen::Settings(s) => {
                            let flipped: Pressed = match s.controls {
                                Pressed::Left => Pressed::Right,
                                Pressed::Right => Pressed::Left,
                            };
                            self.stack.push(
                                Screen::Settings(Settings { controls: flipped, ..s }),
                            );
                            proof {
                                assert(self.stack@ =~= seq![
                                    Screen::Settings(
                                        Settings {
                                            controls: match s.controls {
                                                Pressed::Left => Pressed::Right,
                                                Pressed::Right => Pressed::Left,
                                            },
                                            ..s
                                        },
                                    ),
                                ]);
                            }
                        },
                        other => {
                            self.stack.push(other);
                            proof {
                                assert(self.stack@ =~= s0);
                            }
                        },
                    }
                }
            },
        }
    }

    /// Run one frame of the game: the winner check, then -- while a match
    /// is live -- the simulation pipeline.  Returns the frame's audio cues.
    pub fn tick(&mut self, dt: u64, held: HeldInput) -> (cues: AudioCues)
        requires
            old(self).wf(),
            dt <= DT_MAX,
        ensures
            final(self).wf(),
            final(self).stack@ == tick_step(old(self).stack@, old(self).running, dt, held).0,
            final(self).running == tick_step(old(self).stack@, old(self).running, dt, held).1,
            cues == tick_step(old(self).stack@, old(self).running, dt, held).2,
    {
        let silent = AudioCues { bounce: false, score: false };
        if !self.running {
            return silent;
        }
        if self.stack.len() != 1 {
            return silent;
        }
        let ghost s0 = self.stack@;
        if let Some(top) = self.stack.pop() {
            match top {
                Screen::Playing(p) => {
                    let mut session: Pong = p;
                    if WinnerSystem::run(&session.scores) {
                        self.stack.push(Screen::GameOver);
                        proof {
                            assert(self.stack@ =~= seq![Screen::GameOver]);
                        }
                        silent
                    } else {
                        let cues = session.tick(dt, held);
                        self.stack.push(Screen::Playing(session));
                        proof {
                            assert(self.stack@ =~= seq![
                                Screen::Playing(session_tick(p, dt, held).0),
                            ]);
                        }
                        cues
                    }
                },
                other => {
                    self.stack.push(other);
                    proof {
                        assert(self.stack@ =~= s0);
                    }
                    silent
                },
            }
        } else {
            silent
        }
    }
}

/// Law (game-over transition): a frame that finds a concluded match on the
/// live playing screen replaces it with the game-over screen -- the
/// session's ball and paddles are destroyed with it -- and runs none of the
/// simulation stages, so the frame is silent.
pub proof fn lemma_game_over_transition(p: Pong, dt: u64, held: HeldInput)
    requires
        match_over(p.scores),
    ensures
        tick_step(seq![Screen::Playing(p)], true, dt, held).0 == seq![Screen::GameOver],
        tick_step(seq![Screen::Playing(p)], true, dt, held).1,
        tick_step(seq![Screen::Playing(p)], true, dt, held).2 == AudioCues::silent(),
{
}

/// Law (pause round trip): pausing pushes the pause screen over the playing
/// screen, frames that pass while paused change nothing at all, and
/// resuming pops back to the very session that was paused -- ball, paddles
/// and scores exactly as they were.
pub proof fn lemma_pause_round_trip(p: Pong, dt: u64, held: HeldInput)
    ensures
        ({
            let s0 = seq![Screen::Playing(p)];
            let paused = step(s0, true, Event::Pause);
            let resumed = step(paused.0, paused.1, Event::Pause);
            &&& paused.0 == s0.push(Screen::Pause)
            &&& paused.1
            &&& tick_step(paused.0, paused.1, dt, held).0 == paused.0
            &&& tick_step(paused.0, paused.1, dt, held).1
            &&& tick_step(paused.0, paused.1, dt, held).2 == AudioCues::silent()
            &&& resumed.0 == s0
            &&& resumed.1
        }),
{
    let s0 = seq![Screen::Playing(p)];
    assert(s0.push(Screen::Pause).last() == Screen::Pause);
    assert(s0.push(Screen::Pause).drop_last() =~= s0);
}

} // verus!

