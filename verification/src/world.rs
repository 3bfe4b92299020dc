//! The static world: ground and ceiling bodies, and the world's part of a
//! game reset.

use vstd::prelude::*;

verus! {

use crate::game_state::GameState;
use crate::physics::{Body, BodyKind, CollisionLayers, Vec2};
use crate::pipes::pipe_layers;

/// Vertical centre of the ground body, micro-pixels:
/// `-(WIN_HEIGHT / 2) + 2_000_000` (two pixels above the bottom edge).
pub const GROUND_Y: i64 = -298_000_000;

/// Vertical centre of the ceiling body, micro-pixels: `WIN_HEIGHT / 2`.
pub const CEILING_Y: i64 = 300_000_000;

/// Half width of ground and ceiling, micro-pixels: `WIN_WIDTH / 2`.
pub const WORLD_HALF_X: i64 = 600_000_000;

/// Half thickness of ground and ceiling, micro-pixels (10 pixels).
pub const WORLD_HALF_Y: i64 = 10_000_000;

/// The ground: a static world body along the window's bottom edge.
pub open spec fn ground_body() -> Body {
    Body {
        kind: BodyKind::Static,
        layers: pipe_layers(),
        pos: Vec2 { x: 0, y: GROUND_Y },
        half_extents: Vec2 { x: WORLD_HALF_X, y: WORLD_HALF_Y },
        vel: Vec2 { x: 0, y: 0 },
    }
}

/// The ceiling: a static world body along the window's top edge.
pub open spec fn ceiling_body() -> Body {
    Body {
        kind: BodyKind::Static,
        layers: pipe_layers(),
        pos: Vec2 { x: 0, y: CEILING_Y },
        half_extents: Vec2 { x: WORLD_HALF_X, y: WORLD_HALF_Y },
        vel: Vec2 { x: 0, y: 0 },
    }
}

/// Builds the static world bodies: the ground, then the ceiling.
pub fn setup_ground() -> (r: Vec<Body>)
    ensures
        r@ =~= seq![ground_body(), ceiling_body()],
{
    let ground = Body {
        kind: BodyKind::Static,
        layers: CollisionLayers {
            group_world: true,
            group_player: false,
            group_pipe_gap: false,
            mask_world: false,
            mask_player: true,
            mask_pipe_gap: false,
        },
        pos: Vec2 { x: 0, y: GROUND_Y },
        half_extents: Vec2 { x: WORLD_HALF_X, y: WORLD_HALF_Y },
        vel: Vec2 { x: 0, y: 0 },
    };
    let ceiling = Body { pos: Vec2 { x: 0, y: CEILING_Y }, ..ground };
    vec![ground, ceiling]
}

/// The world's reset handler: a reset signal returns the game to the
/// waiting state.
pub fn handle_game_reset(state: GameState, reset: bool) -> (r: GameState)
    ensures
        reset ==> r == GameState::Waiting,
        !reset ==> r == state,
{
    if reset {
        GameState::Waiting
    } else {
        state
    }
}

} // verus!
