use flappy_burd::game_state::GameState;
use flappy_burd::physics::BodyKind;
use flappy_burd::pipes::{
    move_pipes, pipe_children, pipe_y_offset, rand_y_pos, spawn_pipe, spawn_pipes,
    spawn_pipes_with, PipePair, PIPE_EDGE_X, PIPE_SPACING_X,
};

#[test]
fn draws_stay_in_the_unit_milli_range() {
    for _ in 0..200 {
        let d = rand_y_pos();
        assert!((-1000..1000).contains(&d));
    }
}

#[test]
fn offset_maps_draws_linearly() {
    assert_eq!(pipe_y_offset(0), 0);
    assert_eq!(pipe_y_offset(999), 99_900_000);
    assert_eq!(pipe_y_offset(-1000), -100_000_000);
}

#[test]
fn spawning_places_the_pair_at_the_given_x() {
    let p = spawn_pipe(256_000_000, -500);
    assert_eq!(p.x, 256_000_000);
    assert_eq!(p.y, -50_000_000);
}

#[test]
fn initial_row_is_evenly_spaced_with_first_pair_centred() {
    let draws = vec![0, 100, -100, 999, -1000];
    let pipes = spawn_pipes_with(&draws);
    assert_eq!(pipes.len(), 5);
    for (i, p) in pipes.iter().enumerate() {
        assert_eq!(p.x, (i as i64) * PIPE_SPACING_X);
    }
    assert_eq!(pipes[0].y, 0);
    assert_eq!(pipes[1].y, 10_000_000);
    assert_eq!(pipes[2].y, -10_000_000);
    assert_eq!(pipes[3].y, 99_900_000);
    assert_eq!(pipes[4].y, -100_000_000);
}

#[test]
fn random_row_has_offsets_in_range() {
    let pipes = spawn_pipes();
    assert_eq!(pipes.len(), 5);
    assert_eq!(pipes[0].y, 0);
    for p in pipes.iter().skip(1) {
        assert!((-100_000_000..100_000_000).contains(&p.y));
    }
}

#[test]
fn pipes_scroll_left_while_playing_only() {
    let mut pipes = vec![PipePair { x: 300_000_000, y: 7 }];
    move_pipes(&mut pipes, 100, GameState::Playing);
    assert_eq!(pipes[0], PipePair { x: 300_000_000 - 100_000 * 100, y: 7 });

    let mut frozen = vec![PipePair { x: 300_000_000, y: 7 }];
    move_pipes(&mut frozen, 100, GameState::Waiting);
    assert_eq!(frozen[0], PipePair { x: 300_000_000, y: 7 });
    move_pipes(&mut frozen, 100, GameState::Dead);
    assert_eq!(frozen[0], PipePair { x: 300_000_000, y: 7 });
}

#[test]
fn pipe_past_left_edge_is_recycled_to_right_edge() {
    // One more scrolled step carries this pair past -(WIN_WIDTH/2 + PIPE_WIDTH/2).
    let mut pipes = vec![PipePair { x: -PIPE_EDGE_X + 5_000_000, y: 42 }];
    move_pipes(&mut pipes, 100, GameState::Playing);
    assert_eq!(pipes.len(), 1);
    assert_eq!(pipes[0].x, PIPE_EDGE_X);
    assert!((-100_000_000..100_000_000).contains(&pipes[0].y));
}

#[test]
fn pipe_just_at_edge_is_not_recycled() {
    let mut pipes = vec![PipePair { x: -PIPE_EDGE_X + 10_000_000, y: 42 }];
    move_pipes(&mut pipes, 100, GameState::Playing);
    assert_eq!(pipes[0], PipePair { x: -PIPE_EDGE_X, y: 42 });
}

#[test]
fn children_are_pipe_pipe_and_sensor() {
    let p = PipePair { x: 640_000_000, y: 20_000_000 };
    let children = pipe_children(&p);
    assert_eq!(children.len(), 3);
    assert_eq!(children[0].kind, BodyKind::KinematicPositionBased);
    assert_eq!(children[1].kind, BodyKind::KinematicPositionBased);
    assert_eq!(children[2].kind, BodyKind::Sensor);
    assert_eq!(children[0].pos.y, 20_000_000 + 345_000_000);
    assert_eq!(children[1].pos.y, 20_000_000 - 345_000_000);
    assert_eq!(children[2].pos.y, 20_000_000);
    for c in children.iter() {
        assert_eq!(c.pos.x, 640_000_000);
    }
}

#[test]
fn recycling_preserves_the_children() {
    let before = PipePair { x: -PIPE_EDGE_X - 1, y: 11_000_000 };
    let after = PipePair { x: PIPE_EDGE_X, y: -37_000_000 };
    let cb = pipe_children(&before);
    let ca = pipe_children(&after);
    assert_eq!(cb.len(), ca.len());
    for (b, a) in cb.iter().zip(ca.iter()) {
        assert_eq!(b.kind, a.kind);
        assert_eq!(b.layers, a.layers);
        assert_eq!(b.half_extents, a.half_extents);
    }
}

#[test]
fn reset_respawns_the_full_row() {
    let mut pipes = vec![PipePair { x: -1, y: -2 }];
    flappy_burd::pipes::handle_game_reset(&mut pipes, true);
    assert_eq!(pipes.len(), 5);
    for (i, p) in pipes.iter().enumerate() {
        assert_eq!(p.x, (i as i64) * PIPE_SPACING_X);
    }
    assert_eq!(pipes[0].y, 0);

    let mut kept = vec![PipePair { x: -1, y: -2 }];
    flappy_burd::pipes::handle_game_reset(&mut kept, false);
    assert_eq!(kept, vec![PipePair { x: -1, y: -2 }]);
}
