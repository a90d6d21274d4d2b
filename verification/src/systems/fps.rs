//! The frame-rate readout: refreshes the on-screen counter text on every
//! thirtieth frame, so the number stays readable instead of flickering.

use vstd::prelude::*;

verus! {

use crate::digits::{decimal_digits, decimal_string};

/// How many frames pass between two refreshes of the counter text.
pub const FPS_REFRESH_PERIOD: u64 = 30;

/// The frame-rate readout.
pub struct FpsSystem;

impl FpsSystem {
    /// On a refresh frame, render the sampled frame rate as fresh counter
    /// text; on any other frame, leave the text alone.
    pub fn run(frame_number: u64, fps: u64) -> (text: Option<String>)
        ensures
            text is Some <==> frame_number % FPS_REFRESH_PERIOD == 0,
            text matches Some(s) ==> s@ == decimal_digits(fps as nat),
    {
        if frame_number % FPS_REFRESH_PERIOD == 0 {
            Some(decimal_string(fps))
        } else {
            None
        }
    }
}

} // verus!
