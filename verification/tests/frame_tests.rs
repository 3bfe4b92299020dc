use flappy_burd::bird::{spawn_bird, Tilt, JUMP_FORCE};
use flappy_burd::events::GameEvent;
use flappy_burd::game::Game;
use flappy_burd::game_state::GameState;
use flappy_burd::physics::{BodyKind, Vec2};
use flappy_burd::pipes::PIPE_SPACING_X;
use flappy_burd::sounds::{cue_for, cues_for, AudioCue};
use flappy_burd::world::setup_ground;

#[test]
fn cue_mapping_matches_the_clips() {
    assert_eq!(cue_for(GameEvent::GameReset), Some(AudioCue::Hit));
    assert_eq!(cue_for(GameEvent::Flap), Some(AudioCue::Wing));
    assert_eq!(cue_for(GameEvent::IncreaseScore), Some(AudioCue::Point));
    assert_eq!(cue_for(GameEvent::Died), None);
    assert_eq!(cue_for(GameEvent::GameStarted), None);
}

#[test]
fn cues_play_each_clip_at_most_once_per_frame() {
    let sigs = vec![
        GameEvent::GameStarted,
        GameEvent::Flap,
        GameEvent::IncreaseScore,
        GameEvent::Died,
        GameEvent::GameReset,
    ];
    assert_eq!(
        cues_for(&sigs),
        vec![AudioCue::Hit, AudioCue::Wing, AudioCue::Point]
    );
    let twice = vec![GameEvent::IncreaseScore, GameEvent::IncreaseScore];
    assert_eq!(cues_for(&twice), vec![AudioCue::Point]);
    assert_eq!(cues_for(&vec![GameEvent::Died]), Vec::<AudioCue>::new());
}

#[test]
fn ground_and_ceiling_are_static_world_bodies() {
    let walls = setup_ground();
    assert_eq!(walls.len(), 2);
    assert_eq!(walls[0].kind, BodyKind::Static);
    assert_eq!(walls[1].kind, BodyKind::Static);
    assert_eq!(walls[0].pos, Vec2 { x: 0, y: -298_000_000 });
    assert_eq!(walls[1].pos, Vec2 { x: 0, y: 300_000_000 });
    assert!(walls[0].layers.contains_group(flappy_burd::physics::Layer::World));
}

#[test]
fn fresh_game_waits_with_the_initial_layout() {
    let g = Game::new();
    assert_eq!(g.state, GameState::Waiting);
    assert_eq!(g.bird, spawn_bird());
    assert_eq!(g.score.count, 0);
    assert_eq!(g.pipes.len(), 5);
    assert_eq!(g.pipes[0].x, 0);
    assert_eq!(g.pipes[0].y, 0);
}

#[test]
fn waiting_frame_without_input_changes_nothing_visible() {
    let mut g = Game::new();
    let pipes_before = g.pipes.clone();
    let out = g.frame(false, 16);
    assert!(out.signals.is_empty());
    assert!(out.cues.is_empty());
    assert_eq!(g.state, GameState::Waiting);
    assert_eq!(g.bird, spawn_bird());
    assert_eq!(g.pipes, pipes_before);
}

#[test]
fn end_to_end_press_play_die_reset() {
    let mut g = Game::new();

    // Press: play starts, the bird gains its body and flaps at once.
    let out = g.frame(true, 0);
    assert_eq!(g.state, GameState::Playing);
    assert_eq!(out.signals, vec![GameEvent::GameStarted, GameEvent::Flap]);
    assert_eq!(out.cues, vec![AudioCue::Wing]);
    assert!(g.bird.has_body);
    assert_eq!(g.bird.vel.y, JUMP_FORCE);
    assert_eq!(g.bird.tilt, Tilt::Up);

    // Ten frames with the velocity staying positive: the tilt settles on Up
    // and never thrashes.
    for _ in 0..10 {
        let out = g.frame(false, 16);
        assert!(out.signals.is_empty());
        assert!(g.bird.vel.y > 0);
        assert_eq!(g.bird.tilt, Tilt::Up);
        assert_eq!(g.state, GameState::Playing);
    }

    // Drop the bird just above the ground: this frame's fall starts the
    // player/world contact, so the bird dies and the game freezes.
    g.bird.pos = Vec2 { x: 0, y: -282_000_000 };
    g.bird.vel = Vec2 { x: 0, y: -20_000 };
    let out = g.frame(false, 100);
    assert_eq!(out.signals, vec![GameEvent::Died]);
    assert!(out.cues.is_empty());
    assert_eq!(g.state, GameState::Dead);
    assert!(!g.bird.has_body);
    assert_eq!(g.bird.easing, None);
    assert_eq!(g.score.count, 0);

    // Press again: back to waiting, everything respawned.
    let out = g.frame(true, 16);
    assert_eq!(out.signals, vec![GameEvent::GameReset]);
    assert_eq!(out.cues, vec![AudioCue::Hit]);
    assert_eq!(g.state, GameState::Waiting);
    assert_eq!(g.bird, spawn_bird());
    assert_eq!(g.score.count, 0);
    assert_eq!(g.pipes.len(), 5);
    for (i, p) in g.pipes.iter().enumerate() {
        assert_eq!(p.x, (i as i64) * PIPE_SPACING_X);
    }
    assert_eq!(g.pipes[0].y, 0);
}

#[test]
fn playing_frame_moves_pipes_and_bird() {
    let mut g = Game::new();
    g.frame(true, 0);
    let x0 = g.pipes[0].x;
    let out = g.frame(false, 100);
    assert!(out.signals.is_empty());
    assert_eq!(g.pipes[0].x, x0 - 100_000 * 100);
    // Gravity took from the flap's impulse, and the new velocity carried
    // the bird.
    assert_eq!(g.bird.vel.y, JUMP_FORCE - 600 * 100);
    assert_eq!(g.bird.pos.y, (JUMP_FORCE - 600 * 100) * 100);
}

#[test]
fn press_while_playing_only_flaps() {
    let mut g = Game::new();
    g.frame(true, 0);
    let out = g.frame(true, 16);
    assert_eq!(out.signals, vec![GameEvent::Flap]);
    assert_eq!(g.state, GameState::Playing);
}

#[test]
fn gap_pass_scores_through_the_frame() {
    let mut g = Game::new();
    g.frame(true, 0);
    // Put the bird inside the first gap sensor, flying right out of it.
    let px = g.pipes[0].x;
    g.pipes[0].y = 0;
    g.bird.pos = Vec2 { x: px + 36_000_000, y: 0 };
    g.bird.vel = Vec2 { x: 1_000_000, y: 0 };
    let out = g.frame(false, 100);
    assert_eq!(out.signals, vec![GameEvent::IncreaseScore]);
    assert_eq!(out.cues, vec![AudioCue::Point]);
    assert_eq!(g.score.count, 1);
    assert_eq!(g.score.text, "1");
    assert_eq!(g.state, GameState::Playing);
}
