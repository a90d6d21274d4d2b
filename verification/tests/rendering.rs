//! Read-only render state: score digits, the frame-rate readout.

use pong::digits::decimal_string;
use pong::model::ScoreBoard;
use pong::systems::fps::FpsSystem;

#[test]
fn decimal_rendering() {
    assert_eq!(decimal_string(0), "0");
    assert_eq!(decimal_string(7), "7");
    assert_eq!(decimal_string(10), "10");
    assert_eq!(decimal_string(42), "42");
    assert_eq!(decimal_string(999), "999");
    assert_eq!(decimal_string(1_000), "1000");
    assert_eq!(decimal_string(18_446_744_073_709_551_615), "18446744073709551615");
}

#[test]
fn score_board_text() {
    let scores = ScoreBoard { score_left: 3, score_right: 120 };
    assert_eq!(scores.left_text(), "3");
    assert_eq!(scores.right_text(), "120");
}

#[test]
fn fps_refresh_cadence() {
    assert_eq!(FpsSystem::run(0, 60), Some(String::from("60")));
    assert_eq!(FpsSystem::run(1, 60), None);
    assert_eq!(FpsSystem::run(29, 144), None);
    assert_eq!(FpsSystem::run(30, 144), Some(String::from("144")));
}
