//! The simulation core of a two-player arcade ball-and-paddle game.
//!
//! The crate holds the real-time part of the game: the fixed
//! Movement -> Paddle Control -> Collision -> Scoring pipeline that runs once
//! per rendered frame, and the screen state machine that sequences the
//! welcome, settings, play, pause and game-over phases.  Everything a
//! presentation layer needs back from a frame -- entity positions, score
//! digits, one-shot audio cues -- is returned as plain values.
//!
//! All geometry lives on an integer grid of milli-units (1000 milli-units to
//! one arena unit), velocities are milli-units per second, and elapsed time
//! is handed in as whole milliseconds, so every frame is a deterministic
//! function of the previous state, the held input and the elapsed time.

pub mod digits;
pub mod game;
pub mod model;
pub mod systems;
