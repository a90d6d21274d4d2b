//! Screen state machine behaviour: transitions, pausing, game over.

use pong::game::{Event, Game, Pong, Screen};
use pong::model::{HeldInput, Pressed, ARENA_CENTER_X, BALL_VELOCITY_X, SERVE_DELAY, WIN_SCORE};

fn still() -> HeldInput {
    HeldInput { left_up: false, left_down: false, right_up: false, right_down: false }
}

fn playing_game() -> Game {
    let mut game = Game::new();
    game.handle_event(Event::Start);
    game
}

fn current_session(game: &Game) -> Pong {
    match game.stack.last() {
        Some(Screen::Playing(p)) => *p,
        _ => panic!("no playing screen on top"),
    }
}

#[test]
fn boots_on_welcome() {
    let game = Game::new();
    assert!(game.running);
    assert_eq!(game.stack.len(), 1);
    assert!(matches!(game.stack[0], Screen::Welcome));
}

#[test]
fn start_creates_fresh_session() {
    let game = playing_game();
    assert!(game.running);
    assert_eq!(game.stack.len(), 1);
    let session = current_session(&game);
    assert_eq!(session.scores.score_left, 0);
    assert_eq!(session.scores.score_right, 0);
    assert_eq!(session.ball.x, ARENA_CENTER_X);
    assert_eq!(session.ball.vx, BALL_VELOCITY_X);
    assert_eq!(session.ball.serve_countdown, Some(SERVE_DELAY));
}

#[test]
fn welcome_to_settings_and_back() {
    let mut game = Game::new();
    game.handle_event(Event::OpenSettings);
    assert!(matches!(game.stack[0], Screen::Settings(_)));
    game.handle_event(Event::Back);
    assert!(matches!(game.stack[0], Screen::Welcome));
}

#[test]
fn settings_toggles() {
    let mut game = Game::new();
    game.handle_event(Event::OpenSettings);
    match game.stack[0] {
        Screen::Settings(s) => {
            assert!(s.music_on);
            assert!(matches!(s.controls, Pressed::Left));
        },
        _ => panic!("expected the settings screen"),
    }
    game.handle_event(Event::ToggleMusic);
    game.handle_event(Event::ToggleControls);
    match game.stack[0] {
        Screen::Settings(s) => {
            assert!(!s.music_on);
            assert!(matches!(s.controls, Pressed::Right));
        },
        _ => panic!("expected the settings screen"),
    }
    game.handle_event(Event::ToggleControls);
    match game.stack[0] {
        Screen::Settings(s) => assert!(matches!(s.controls, Pressed::Left)),
        _ => panic!("expected the settings screen"),
    }
}

#[test]
fn settings_can_start_match() {
    let mut game = Game::new();
    game.handle_event(Event::OpenSettings);
    game.handle_event(Event::Start);
    assert!(matches!(game.stack[0], Screen::Playing(_)));
}

#[test]
fn pause_round_trip_preserves_session() {
    let mut game = playing_game();
    // Let some play happen first.
    for _ in 0..20 {
        let _ = game.tick(16, still());
    }
    let before = current_session(&game);
    game.handle_event(Event::Pause);
    assert_eq!(game.stack.len(), 2);
    assert!(matches!(game.stack[1], Screen::Pause));
    // Frames that pass while paused simulate nothing.
    for _ in 0..50 {
        let cues = game.tick(16, still());
        assert!(!cues.bounce && !cues.score);
    }
    game.handle_event(Event::Pause);
    assert_eq!(game.stack.len(), 1);
    let after = current_session(&game);
    assert_eq!(after.ball.x, before.ball.x);
    assert_eq!(after.ball.y, before.ball.y);
    assert_eq!(after.ball.vx, before.ball.vx);
    assert_eq!(after.ball.vy, before.ball.vy);
    assert_eq!(after.ball.serve_countdown, before.ball.serve_countdown);
    assert_eq!(after.scores.score_left, before.scores.score_left);
    assert_eq!(after.scores.score_right, before.scores.score_right);
    assert_eq!(after.left.y, before.left.y);
    assert_eq!(after.right.y, before.right.y);
}

#[test]
fn pause_needs_playing_screen() {
    let mut game = Game::new();
    game.handle_event(Event::Pause);
    assert_eq!(game.stack.len(), 1);
    assert!(matches!(game.stack[0], Screen::Welcome));
}

#[test]
fn game_over_on_winning_score() {
    let mut game = playing_game();
    let mut session = current_session(&game);
    session.scores.score_left = WIN_SCORE;
    game.stack.clear();
    game.stack.push(Screen::Playing(session));
    let cues = game.tick(16, still());
    assert!(!cues.bounce && !cues.score);
    assert!(game.running);
    assert_eq!(game.stack.len(), 1);
    assert!(matches!(game.stack[0], Screen::GameOver));
}

#[test]
fn game_over_confirm_terminates() {
    let mut game = playing_game();
    let mut session = current_session(&game);
    session.scores.score_right = WIN_SCORE;
    game.stack.clear();
    game.stack.push(Screen::Playing(session));
    let _ = game.tick(16, still());
    game.handle_event(Event::Confirm);
    assert!(!game.running);
    assert_eq!(game.stack.len(), 0);
}

#[test]
fn quit_terminates_from_any_screen() {
    let mut game = Game::new();
    game.handle_event(Event::Quit);
    assert!(!game.running);
    assert_eq!(game.stack.len(), 0);

    let mut paused = playing_game();
    paused.handle_event(Event::Pause);
    paused.handle_event(Event::Quit);
    assert!(!paused.running);
    assert_eq!(paused.stack.len(), 0);
}

#[test]
fn events_after_termination_do_nothing() {
    let mut game = Game::new();
    game.handle_event(Event::Quit);
    game.handle_event(Event::Start);
    let cues = game.tick(16, still());
    assert!(!game.running);
    assert_eq!(game.stack.len(), 0);
    assert!(!cues.bounce && !cues.score);
}

#[test]
fn meaningless_events_are_ignored() {
    let mut game = playing_game();
    game.handle_event(Event::Start);
    game.handle_event(Event::Back);
    game.handle_event(Event::ToggleMusic);
    game.handle_event(Event::Confirm);
    assert!(game.running);
    assert_eq!(game.stack.len(), 1);
    assert!(matches!(game.stack[0], Screen::Playing(_)));
}

#[test]
fn full_rally_scores_a_point() {
    // Serve, wait the countdown out, then let the rally run until someone
    // concedes; the conceding side's opponent gets the point and the ball
    // is reset to the centre.
    let mut game = playing_game();
    let mut scored = false;
    for _ in 0..2_000 {
        let cues = game.tick(16, still());
        if cues.score {
            scored = true;
            break;
        }
    }
    assert!(scored);
    let session = current_session(&game);
    assert_eq!(session.scores.score_left + session.scores.score_right, 1);
    assert_eq!(session.ball.x, ARENA_CENTER_X);
    assert_eq!(session.ball.serve_countdown, Some(SERVE_DELAY));
}
