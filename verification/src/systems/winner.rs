//! The terminal-condition check: whether either player has won the match.
//! The playing screen runs it at the top of every frame, before the
//! simulation stages, so the pipeline never runs on a concluded match.

use vstd::prelude::*;

verus! {

use crate::model::{ScoreBoard, WIN_SCORE};

/// Either player has reached the winning score.
pub open spec fn match_over(s: ScoreBoard) -> bool {
    s.score_left >= WIN_SCORE || s.score_right >= WIN_SCORE
}

/// The winner check.
pub struct WinnerSystem;

impl WinnerSystem {
    /// Whether the match is over and the playing screen must give way to
    /// the game-over screen.
    pub fn run(scores: &ScoreBoard) -> (over: bool)
        ensures
            over == match_over(*scores),
    {
        scores.score_left >= WIN_SCORE || scores.score_right >= WIN_SCORE
    }
}

} // verus!
