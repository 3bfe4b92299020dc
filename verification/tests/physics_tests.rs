use flappy_burd::collisions::check_collisions;
use flappy_burd::events::GameEvent;
use flappy_burd::game_state::GameState;
use flappy_burd::physics::{
    check_aabb_overlap, check_layers_interact, detect_events, step_bodies, update_gravity_ents,
    update_physic_ents, Body, BodyKind, CollisionEvent, CollisionLayers, Layer, PhysicsEnt, Vec2,
};

fn player_layers() -> CollisionLayers {
    CollisionLayers::all().with_group(Layer::Player)
}

fn world_layers() -> CollisionLayers {
    CollisionLayers::none().with_group(Layer::World).with_mask(Layer::Player)
}

fn gap_layers() -> CollisionLayers {
    CollisionLayers::none().with_group(Layer::PipeGap).with_mask(Layer::Player)
}

fn body_at(x: i64, y: i64, hx: i64, hy: i64, layers: CollisionLayers, kind: BodyKind) -> Body {
    Body {
        kind,
        layers,
        pos: Vec2 { x, y },
        half_extents: Vec2 { x: hx, y: hy },
        vel: Vec2 { x: 0, y: 0 },
    }
}

#[test]
fn layer_masks_filter_interaction() {
    assert!(check_layers_interact(&player_layers(), &world_layers()));
    assert!(check_layers_interact(&world_layers(), &player_layers()));
    // Two pipes never interact: each masks only the player.
    assert!(!check_layers_interact(&world_layers(), &world_layers()));
    assert!(!check_layers_interact(&gap_layers(), &world_layers()));
}

#[test]
fn contains_group_reads_membership() {
    assert!(player_layers().contains_group(Layer::Player));
    assert!(world_layers().contains_group(Layer::World));
    assert!(!world_layers().contains_group(Layer::Player));
}

#[test]
fn aabb_overlap_is_strict() {
    let a = body_at(0, 0, 10, 10, world_layers(), BodyKind::Static);
    let near = body_at(19, 0, 10, 10, player_layers(), BodyKind::Dynamic);
    let touching = body_at(20, 0, 10, 10, player_layers(), BodyKind::Dynamic);
    assert!(check_aabb_overlap(&a, &near));
    assert!(!check_aabb_overlap(&a, &touching));
}

#[test]
fn gravity_and_motion_integrate_dynamic_bodies_only() {
    let dynamic = Body {
        kind: BodyKind::Dynamic,
        layers: player_layers(),
        pos: Vec2 { x: 1_000, y: 2_000 },
        half_extents: Vec2 { x: 10, y: 10 },
        vel: Vec2 { x: 5_000, y: 10_000 },
    };
    let kinematic = Body { kind: BodyKind::KinematicPositionBased, ..dynamic };
    let mut bodies = vec![dynamic, kinematic];
    step_bodies(&mut bodies, 100);
    // Dynamic: vy = 10_000 - 600 * 100 = -50_000; pos += vel * dt.
    assert_eq!(bodies[0].vel.y, -50_000);
    assert_eq!(bodies[0].pos.x, 1_000 + 5_000 * 100);
    assert_eq!(bodies[0].pos.y, 2_000 + (-50_000) * 100);
    // Kinematic: untouched.
    assert_eq!(bodies[1], kinematic);
}

#[test]
fn detect_events_reports_start_and_stop() {
    let player0 = body_at(0, 0, 10, 10, player_layers(), BodyKind::Dynamic);
    let wall = body_at(100, 0, 10, 10, world_layers(), BodyKind::Static);
    let gap = body_at(5, 0, 10, 10, gap_layers(), BodyKind::Sensor);
    // The player moves onto the wall and out of the gap sensor.
    let player1 = body_at(95, 0, 10, 10, player_layers(), BodyKind::Dynamic);
    let before = vec![player0, wall, gap];
    let after = vec![player1, wall, gap];
    let events = detect_events(&before, &after);
    assert_eq!(events.len(), 2);
    assert!(matches!(events[0], CollisionEvent::Started(_, _)));
    assert!(matches!(events[1], CollisionEvent::Stopped(_, _)));
}

#[test]
fn collision_response_classifies_by_layers_while_playing() {
    let started = CollisionEvent::Started(player_layers(), world_layers());
    let started_rev = CollisionEvent::Started(world_layers(), player_layers());
    let stopped = CollisionEvent::Stopped(gap_layers(), player_layers());
    let stopped_rev = CollisionEvent::Stopped(player_layers(), gap_layers());
    let irrelevant = CollisionEvent::Started(world_layers(), world_layers());
    let events = vec![started, started_rev, stopped, stopped_rev, irrelevant];
    let signals = check_collisions(&events, GameState::Playing);
    assert_eq!(
        signals,
        vec![
            GameEvent::Died,
            GameEvent::Died,
            GameEvent::IncreaseScore,
            GameEvent::IncreaseScore,
        ]
    );
}

#[test]
fn collision_response_is_suppressed_outside_play() {
    let started = CollisionEvent::Started(player_layers(), world_layers());
    let events = vec![started];
    assert!(check_collisions(&events, GameState::Waiting).is_empty());
    assert!(check_collisions(&events, GameState::Dead).is_empty());
}

#[test]
fn gap_stop_while_playing_scores_exactly_once() {
    let stopped = CollisionEvent::Stopped(player_layers(), gap_layers());
    let signals = check_collisions(&vec![stopped], GameState::Playing);
    assert_eq!(signals, vec![GameEvent::IncreaseScore]);
}

#[test]
fn physics_ent_accumulates_force_and_resets_velocity() {
    let mut ent = PhysicsEnt::default();
    ent.apply_force(Vec2 { x: 0, y: -25_000 }, 16);
    assert_eq!(ent.acceleration, Vec2 { x: 0, y: -400_000 });
    ent.velocity = Vec2 { x: 3, y: 4 };
    ent.reset_velocity();
    assert_eq!(ent.velocity, Vec2 { x: 0, y: 0 });
    assert_eq!(ent.acceleration, Vec2 { x: 0, y: -400_000 });
}

#[test]
fn physic_ents_euler_update() {
    let ent = PhysicsEnt {
        velocity: Vec2 { x: 10, y: 20 },
        acceleration: Vec2 { x: 1, y: -2 },
    };
    let mut ents = vec![(Vec2 { x: 100, y: 200 }, ent)];
    update_physic_ents(&mut ents);
    let (pos, ent2) = ents[0];
    assert_eq!(ent2.velocity, Vec2 { x: 11, y: 18 });
    assert_eq!(pos, Vec2 { x: 111, y: 218 });
    assert_eq!(ent2.acceleration, Vec2 { x: 0, y: 0 });
}

#[test]
fn gravity_ents_get_downward_force() {
    let mut ents = vec![PhysicsEnt::default()];
    update_gravity_ents(&mut ents, 16);
    assert_eq!(ents[0].acceleration, Vec2 { x: 0, y: -25_000 * 16 });
    assert_eq!(ents[0].velocity, Vec2 { x: 0, y: 0 });
}
