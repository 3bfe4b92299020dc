use flappy_burd::events::{count_signal, GameEvent};
use flappy_burd::game_state::{handle_died_event, handle_restart_input, run_if_playing, GameState};
use flappy_burd::score::{setup_score, u32_to_string};
use flappy_burd::world::handle_game_reset as world_game_reset;

#[test]
fn restart_cycles_waiting_playing_dead() {
    let (s1, sig1) = handle_restart_input(GameState::Waiting, true);
    assert_eq!(s1, GameState::Playing);
    assert_eq!(sig1, Some(GameEvent::GameStarted));

    let s2 = handle_died_event(s1, true);
    assert_eq!(s2, GameState::Dead);

    let (s3, sig3) = handle_restart_input(s2, true);
    assert_eq!(s3, GameState::Waiting);
    assert_eq!(sig3, Some(GameEvent::GameReset));
}

#[test]
fn press_while_playing_is_noop() {
    let (s, sig) = handle_restart_input(GameState::Playing, true);
    assert_eq!(s, GameState::Playing);
    assert_eq!(sig, None);
}

#[test]
fn no_press_changes_nothing() {
    for st in [GameState::Waiting, GameState::Playing, GameState::Dead] {
        let (s, sig) = handle_restart_input(st, false);
        assert_eq!(s, st);
        assert_eq!(sig, None);
    }
}

#[test]
fn died_event_is_unconditional() {
    assert_eq!(handle_died_event(GameState::Playing, true), GameState::Dead);
    assert_eq!(handle_died_event(GameState::Playing, false), GameState::Playing);
}

#[test]
fn run_if_playing_gates() {
    assert!(run_if_playing(GameState::Playing));
    assert!(!run_if_playing(GameState::Waiting));
    assert!(!run_if_playing(GameState::Dead));
}

#[test]
fn score_starts_at_zero_with_text() {
    let s = setup_score();
    assert_eq!(s.count, 0);
    assert_eq!(s.text, "0");
}

#[test]
fn score_increments_by_one_and_renders() {
    let mut s = setup_score();
    s.handle_increase_score();
    assert_eq!(s.count, 1);
    assert_eq!(s.text, "1");
    for _ in 0..11 {
        s.handle_increase_score();
    }
    assert_eq!(s.count, 12);
    assert_eq!(s.text, "12");
}

#[test]
fn score_resets_to_exactly_zero() {
    let mut s = setup_score();
    s.handle_increase_score();
    s.handle_increase_score();
    s.handle_game_reset(true);
    assert_eq!(s.count, 0);
    assert_eq!(s.text, "0");
}

#[test]
fn score_without_reset_is_kept() {
    let mut s = setup_score();
    s.handle_increase_score();
    s.handle_game_reset(false);
    assert_eq!(s.count, 1);
    assert_eq!(s.text, "1");
}

#[test]
fn decimal_rendering_exact() {
    assert_eq!(u32_to_string(0), "0");
    assert_eq!(u32_to_string(7), "7");
    assert_eq!(u32_to_string(10), "10");
    assert_eq!(u32_to_string(305), "305");
    assert_eq!(u32_to_string(4294967295), "4294967295");
}

#[test]
fn world_reset_returns_to_waiting() {
    assert_eq!(world_game_reset(GameState::Dead, true), GameState::Waiting);
    assert_eq!(world_game_reset(GameState::Playing, false), GameState::Playing);
}

#[test]
fn counting_signals() {
    let sigs = vec![
        GameEvent::Died,
        GameEvent::IncreaseScore,
        GameEvent::Died,
        GameEvent::Flap,
    ];
    assert_eq!(count_signal(&sigs, GameEvent::Died), 2);
    assert_eq!(count_signal(&sigs, GameEvent::IncreaseScore), 1);
    assert_eq!(count_signal(&sigs, GameEvent::GameReset), 0);
}
