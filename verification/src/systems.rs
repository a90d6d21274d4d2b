//! The per-frame simulation stages.  Each stage is a small system struct
//! whose `run` function performs one frame's worth of work on the components
//! it owns; a playing session dispatches them in the fixed order
//! Movement -> Paddle Control -> Collision -> Scoring.

pub mod bounce;
pub mod fps;
pub mod move_balls;
pub mod paddle;
pub mod score;
pub mod winner;
