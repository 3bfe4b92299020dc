use flappy_burd::bird::{spawn_bird, Easing, Tilt, JUMP_FORCE};
use flappy_burd::game_state::GameState;
use flappy_burd::physics::Vec2;

#[test]
fn spawned_bird_is_inert_at_origin() {
    let b = spawn_bird();
    assert_eq!(b.pos, Vec2 { x: 0, y: 0 });
    assert_eq!(b.vel, Vec2 { x: 0, y: 0 });
    assert!(!b.has_body);
    assert_eq!(b.rotation, 0);
    assert_eq!(b.tilt, Tilt::Level);
    assert_eq!(b.easing, None);
}

#[test]
fn flap_clamps_downward_velocity_first() {
    let mut b = spawn_bird();
    b.vel.y = -500_000;
    let flapped = b.bird_input(true, GameState::Playing);
    assert!(flapped);
    assert_eq!(b.vel.y, JUMP_FORCE);
}

#[test]
fn flap_adds_to_upward_velocity() {
    let mut b = spawn_bird();
    b.vel.y = 100_000;
    let flapped = b.bird_input(true, GameState::Playing);
    assert!(flapped);
    assert_eq!(b.vel.y, 100_000 + JUMP_FORCE);
}

#[test]
fn input_ignored_outside_play() {
    for st in [GameState::Waiting, GameState::Dead] {
        let mut b = spawn_bird();
        b.vel.y = -7;
        let flapped = b.bird_input(true, st);
        assert!(!flapped);
        assert_eq!(b.vel.y, -7);
    }
    let mut b = spawn_bird();
    assert!(!b.bird_input(false, GameState::Playing));
}

#[test]
fn game_start_attaches_body() {
    let mut b = spawn_bird();
    b.on_game_started();
    assert!(b.has_body);
}

#[test]
fn reset_restores_spawn_state() {
    let mut b = spawn_bird();
    b.on_game_started();
    b.pos = Vec2 { x: 5, y: -9 };
    b.vel = Vec2 { x: 1, y: 2 };
    b.rotation = 123;
    b.tilt = Tilt::Down;
    b.easing = Some(Easing { start: 0, end: -300, duration: 800, elapsed: 100 });
    b.handle_game_reset();
    assert_eq!(b, spawn_bird());
}

#[test]
fn death_detaches_body_and_cancels_easing() {
    let mut b = spawn_bird();
    b.on_game_started();
    b.pos = Vec2 { x: 5, y: -9 };
    b.easing = Some(Easing { start: 0, end: 300, duration: 400, elapsed: 100 });
    b.on_died();
    assert!(!b.has_body);
    assert_eq!(b.easing, None);
    assert_eq!(b.pos, Vec2 { x: 5, y: -9 });
}

#[test]
fn rising_bird_tilts_up_once() {
    let mut b = spawn_bird();
    b.vel.y = 1;
    b.handle_bird_tilt_up(GameState::Playing);
    assert_eq!(b.tilt, Tilt::Up);
    assert_eq!(
        b.easing,
        Some(Easing { start: 0, end: 300, duration: 400, elapsed: 0 })
    );
    // Already tilting up: no replacement, the running ease is kept.
    let kept = b.easing;
    b.handle_bird_tilt_up(GameState::Playing);
    assert_eq!(b.easing, kept);
}

#[test]
fn sinking_bird_tilts_down_and_preempts() {
    let mut b = spawn_bird();
    b.vel.y = 1;
    b.handle_bird_tilt_up(GameState::Playing);
    b.vel.y = -1;
    b.handle_bird_tilt_down(GameState::Playing);
    assert_eq!(b.tilt, Tilt::Down);
    assert_eq!(
        b.easing,
        Some(Easing { start: 0, end: -300, duration: 800, elapsed: 0 })
    );
}

#[test]
fn tilt_is_gated_to_play() {
    let mut b = spawn_bird();
    b.vel.y = 1;
    b.handle_bird_tilt_up(GameState::Waiting);
    assert_eq!(b.tilt, Tilt::Level);
    assert_eq!(b.easing, None);
}

#[test]
fn easing_quadratic_out_midpoint() {
    let mut b = spawn_bird();
    b.easing = Some(Easing { start: 0, end: 300, duration: 400, elapsed: 0 });
    b.advance_easing(200);
    // Halfway through a quadratic-out ease covers three quarters of the way:
    // 300 * (400^2 - 200^2) / 400^2 = 225.
    assert_eq!(b.rotation, 225);
    assert_eq!(
        b.easing,
        Some(Easing { start: 0, end: 300, duration: 400, elapsed: 200 })
    );
}

#[test]
fn easing_lands_exactly_on_target_and_ends() {
    let mut b = spawn_bird();
    b.easing = Some(Easing { start: 120, end: -300, duration: 800, elapsed: 0 });
    b.advance_easing(1000);
    assert_eq!(b.rotation, -300);
    assert_eq!(b.easing, None);
}

#[test]
fn no_easing_in_flight_is_a_noop() {
    let mut b = spawn_bird();
    b.rotation = 42;
    b.advance_easing(100);
    assert_eq!(b.rotation, 42);
    assert_eq!(b.easing, None);
}

#[test]
fn physics_step_needs_a_body() {
    let mut b = spawn_bird();
    b.vel.y = 5_000;
    b.physics_step(100);
    assert_eq!(b.pos, Vec2 { x: 0, y: 0 });
    assert_eq!(b.vel.y, 5_000);
}

#[test]
fn physics_step_integrates_gravity_then_motion() {
    let mut b = spawn_bird();
    b.on_game_started();
    b.vel = Vec2 { x: 2_000, y: 10_000 };
    b.physics_step(100);
    assert_eq!(b.vel.y, 10_000 - 600 * 100);
    assert_eq!(b.pos.x, 2_000 * 100);
    assert_eq!(b.pos.y, (10_000 - 600 * 100) * 100);
}
