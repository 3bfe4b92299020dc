//! Procedural pipe obstacles: spawning, horizontal scroll, and wrap-around
//! recycling with a randomized vertical offset.
//!
//! A pipe pair is one parent transform owning three derived child bodies: a
//! top pipe, a bottom pipe, and the non-solid gap sensor between them.
//! Pairs scroll left while the game is playing and are recycled, not
//! destroyed, once fully past the left window edge.

use vstd::prelude::*;

verus! {

use rand::Rng;
use crate::game_state::{run_if_playing, GameState};
use crate::physics::{abs_val, Body, BodyKind, CollisionLayers, Vec2, MAX_COORD, MAX_DELTA_MS};
use crate::{WIN_HEIGHT, WIN_WIDTH};

/// How many pipe pairs exist at any time.
pub const PIPE_COUNT: usize = 5;

/// Horizontal distance between pipe pairs, micro-pixels:
/// `WIN_WIDTH / 5 + PIPE_WIDTH / 5`.
pub const PIPE_SPACING_X: i64 = 256_000_000;

/// Height of the gap between the two pipes of a pair, micro-pixels.
pub const PIPE_SPACING_Y: i64 = 130_000_000;

/// Width of a pipe, micro-pixels (80 pixels).
pub const PIPE_WIDTH: i64 = 80_000_000;

/// Height of a pipe, micro-pixels: `WIN_HEIGHT - PIPE_WIDTH / 2`.
pub const PIPE_HEIGHT: i64 = 560_000_000;

/// Vertical margin kept free of gap centres at the window's top and bottom,
/// micro-pixels (200 pixels).
pub const PIPE_PADDING: i64 = 200_000_000;

/// Leftward scroll speed of the pipes, milli-pixels per second (100 pixels
/// per second).
pub const PIPE_SPEED: i64 = 100_000;

/// The x coordinate just past either window edge for a pipe pair,
/// micro-pixels: `WIN_WIDTH / 2 + PIPE_WIDTH / 2`.
pub const PIPE_EDGE_X: i64 = 640_000_000;

/// Centre offset of each pipe above or below its pair's transform,
/// micro-pixels: `PIPE_HEIGHT / 2 + PIPE_SPACING_Y / 2`.
pub const PIPE_CHILD_OFFSET_Y: i64 = 345_000_000;

/// Half width of a pipe's collision box, micro-pixels: `PIPE_WIDTH / 2`.
pub const PIPE_HALF_X: i64 = 40_000_000;

/// Half height of a pipe's collision box, micro-pixels: `PIPE_HEIGHT / 2`.
pub const PIPE_HALF_Y: i64 = 280_000_000;

/// Half width of the gap sensor, micro-pixels: half a pixel narrower than
/// the pipe, so the sensor releases just before the pipe's trailing edge.
pub const GAP_HALF_X: i64 = 39_500_000;

/// Half height of the gap sensor, micro-pixels: half a pixel under
/// `PIPE_SPACING_Y / 2`.
pub const GAP_HALF_Y: i64 = 64_500_000;

/// Micro-pixels of vertical offset per milli-unit of the random draw:
/// `(WIN_HEIGHT - 2 * PIPE_PADDING) / 2000`.
pub const PIPE_OFFSET_SCALE: i64 = 100_000;

/// One pipe pair: the parent transform owning the three child bodies.  The
/// x coordinate scrolls left; the y offset is fixed until the pair is
/// recycled.
#[derive(Clone, Copy, Debug, PartialEq, Eq, Structural)]
pub struct PipePair {
    pub x: i64,
    pub y: i64,
}

/// The vertical offset a random draw (milli-units in `[-1000, 1000)`) maps
/// to: the draw, read as a fraction of two, of the window height less the
/// padding margins.
pub open spec fn pipe_y_offset_spec(draw: int) -> int {
    ((WIN_HEIGHT - 2 * PIPE_PADDING) / 2000) * draw
}

/// The range the randomized vertical offset always falls in.
pub open spec fn pipe_y_in_range(y: int) -> bool {
    -(PIPE_OFFSET_SCALE * 1000) <= y < PIPE_OFFSET_SCALE * 1000
}

/// Relies on `rand::Rng::gen_range` over `lo..hi` on a thread-local
/// generator: the sampled value lies within the given range, which must not
/// be empty (`gen_range` panics on an empty range).
#[verifier::external_body]
fn rand_in_range(lo: i64, hi: i64) -> (r: i64)
    requires
        lo < hi,
    ensures
        lo <= r < hi,
{
    rand::thread_rng().gen_range(lo..hi)
}

/// Draws a fresh vertical position, in milli-units of the unit interval
/// `[-1, 1)`.
pub fn rand_y_pos() -> (r: i64)
    ensures
        -1000 <= r < 1000,
{
    rand_in_range(-1000, 1000)
}

/// Maps a draw to its vertical offset in micro-pixels.
pub fn pipe_y_offset(draw: i64) -> (r: i64)
    requires
        -1000 <= draw < 1000,
    ensures
        r == pipe_y_offset_spec(draw as int),
        pipe_y_in_range(r as int),
{
    PIPE_OFFSET_SCALE * draw
}

/// Collision layers of a solid pipe: a world body interacting with the
/// player.
pub open spec fn pipe_layers() -> CollisionLayers {
    CollisionLayers {
        group_world: true,
        group_player: false,
        group_pipe_gap: false,
        mask_world: false,
        mask_player: true,
        mask_pipe_gap: false,
    }
}

/// Collision layers of the gap sensor: a pipe-gap body interacting with the
/// player.
pub open spec fn gap_layers() -> CollisionLayers {
    CollisionLayers {
        group_world: false,
        group_player: false,
        group_pipe_gap: true,
        mask_world: false,
        mask_player: true,
        mask_pipe_gap: false,
    }
}

/// The top pipe's body, derived from the pair's transform.
pub open spec fn top_pipe_body(p: PipePair) -> Body {
    Body {
        kind: BodyKind::KinematicPositionBased,
        layers: pipe_layers(),
        pos: Vec2 { x: p.x, y: (p.y + PIPE_CHILD_OFFSET_Y) as i64 },
        half_extents: Vec2 { x: PIPE_HALF_X, y: PIPE_HALF_Y },
        vel: Vec2 { x: 0, y: 0 },
    }
}

/// The bottom pipe's body, derived from the pair's transform.
pub open spec fn bottom_pipe_body(p: PipePair) -> Body {
    Body {
        kind: BodyKind::KinematicPositionBased,
        layers: pipe_layers(),
        pos: Vec2 { x: p.x, y: (p.y - PIPE_CHILD_OFFSET_Y) as i64 },
        half_extents: Vec2 { x: PIPE_HALF_X, y: PIPE_HALF_Y },
        vel: Vec2 { x: 0, y: 0 },
    }
}

/// The gap sensor's body, centred on the pair's transform.
pub open spec fn gap_sensor_body(p: PipePair) -> Body {
    Body {
        kind: BodyKind::Sensor,
        layers: gap_layers(),
        pos: Vec2 { x: p.x, y: p.y },
        half_extents: Vec2 { x: GAP_HALF_X, y: GAP_HALF_Y },
        vel: Vec2 { x: 0, y: 0 },
    }
}

/// The three child bodies a pipe pair owns: top pipe, bottom pipe, gap
/// sensor.
pub open spec fn pipe_children_spec(p: PipePair) -> Seq<Body> {
    seq![top_pipe_body(p), bottom_pipe_body(p), gap_sensor_body(p)]
}

/// Builds the three child bodies of a pipe pair.
pub fn pipe_children(p: &PipePair) -> (r: Vec<Body>)
    requires
        abs_val(p.x as int) <= MAX_COORD,
        abs_val(p.y as int) <= MAX_COORD,
    ensures
        r@ == pipe_children_spec(*p),
{
    let top = Body {
        kind: BodyKind::KinematicPositionBased,
        layers: CollisionLayers {
            group_world: true,
            group_player: false,
            group_pipe_gap: false,
            mask_world: false,
            mask_player: true,
            mask_pipe_gap: false,
        },
        pos: Vec2 { x: p.x, y: p.y + PIPE_CHILD_OFFSET_Y },
        half_extents: Vec2 { x: PIPE_HALF_X, y: PIPE_HALF_Y },
        vel: Vec2 { x: 0, y: 0 },
    };
    let bottom = Body {
        kind: BodyKind::KinematicPositionBased,
        layers: top.layers,
        pos: Vec2 { x: p.x, y: p.y - PIPE_CHILD_OFFSET_Y },
        half_extents: Vec2 { x: PIPE_HALF_X, y: PIPE_HALF_Y },
        vel: Vec2 { x: 0, y: 0 },
    };
    let gap = Body {
        kind: BodyKind::Sensor,
        layers: CollisionLayers {
            group_world: false,
            group_player: false,
            group_pipe_gap: true,
            mask_world: false,
            mask_player: true,
            mask_pipe_gap: false,
        },
        pos: Vec2 { x: p.x, y: p.y },
        half_extents: Vec2 { x: GAP_HALF_X, y: GAP_HALF_Y },
        vel: Vec2 { x: 0, y: 0 },
    };
    let r = vec![top, bottom, gap];
    proof {
        assert(r@ =~= pipe_children_spec(*p));
    }
    r
}

/// Recycling or scrolling a pipe pair preserves its children: each of the
/// three child bodies keeps its kind, its collision layers and its box
/// size, whatever happens to the parent transform.
pub proof fn lemma_pipe_children_preserved(p: PipePair, q: PipePair)
    ensures
        pipe_children_spec(p).len() == pipe_children_spec(q).len() == 3,
        forall|i: int|
            0 <= i < 3 ==> {
                &&& (#[trigger] pipe_children_spec(p)[i]).kind == pipe_children_spec(q)[i].kind
                &&& pipe_children_spec(p)[i].layers == pipe_children_spec(q)[i].layers
                &&& pipe_children_spec(p)[i].half_extents == pipe_children_spec(q)[i].half_extents
            },
{
    assert forall|i: int| 0 <= i < 3 implies {
        &&& (#[trigger] pipe_children_spec(p)[i]).kind == pipe_children_spec(q)[i].kind
        &&& pipe_children_spec(p)[i].layers == pipe_children_spec(q)[i].layers
        &&& pipe_children_spec(p)[i].half_extents == pipe_children_spec(q)[i].half_extents
    } by {
        if i == 0 {
        } else if i == 1 {
        } else {
        }
    }
}

/// Places one pipe pair at the given x, with the vertical offset the draw
/// maps to.
pub fn spawn_pipe(x: i64, draw: i64) -> (r: PipePair)
    requires
        -1000 <= draw < 1000,
        abs_val(x as int) <= MAX_COORD,
    ensures
        r.x == x,
        r.y == pipe_y_offset_spec(draw as int),
        pipe_y_in_range(r.y as int),
{
    PipePair { x, y: pipe_y_offset(draw) }
}

/// Whether a freshly spawned row of pipe pairs is laid out correctly for
/// the given draws: evenly spaced, the first pair centred, the rest at the
/// offsets their draws map to.
pub open spec fn spawned_pipes_ok(pipes: Seq<PipePair>, draws: Seq<int>) -> bool {
    &&& pipes.len() == PIPE_COUNT
    &&& forall|i: int|
        0 <= i < pipes.len() ==> {
            &&& (#[trigger] pipes[i]).x == i * PIPE_SPACING_X
            &&& pipes[i].y == (if i == 0 {
                0int
            } else {
                pipe_y_offset_spec(draws[i])
            })
        }
}

/// Spawns the full row of pipe pairs from the given draws; the first pair
/// ignores its draw and sits centred.
pub fn spawn_pipes_with(draws: &Vec<i64>) -> (r: Vec<PipePair>)
    requires
        draws@.len() == PIPE_COUNT,
        forall|i: int| 0 <= i < draws@.len() ==> -1000 <= #[trigger] draws@[i] < 1000,
    ensures
        spawned_pipes_ok(r@, draws@.map_values(|d: i64| d as int)),
{
    let mut out: Vec<PipePair> = Vec::new();
    let mut i: usize = 0;
    while i < PIPE_COUNT
        invariant
            i <= PIPE_COUNT,
            out@.len() == i,
            draws@.len() == PIPE_COUNT,
            forall|k: int| 0 <= k < draws@.len() ==> -1000 <= #[trigger] draws@[k] < 1000,
            forall|k: int|
                0 <= k < i as int ==> {
                    &&& (#[trigger] out@[k]).x == k * PIPE_SPACING_X
                    &&& out@[k].y == (if k == 0 {
                        0int
                    } else {
                        pipe_y_offset_spec(draws@[k] as int)
                    })
                },
        decreases PIPE_COUNT - i,
    {
        let x = (i as i64) * PIPE_SPACING_X;
        if i == 0 {
            out.push(spawn_pipe(0, 0));
        } else {
            out.push(spawn_pipe(x, draws[i]));
        }
        i = i + 1;
    }
    out
}

/// Spawns the full row of pipe pairs, drawing a fresh vertical offset for
/// every pair but the first, which sits centred.
pub fn spawn_pipes() -> (r: Vec<PipePair>)
    ensures
        r@.len() == PIPE_COUNT,
        forall|i: int|
            0 <= i < r@.len() ==> (#[trigger] r@[i]).x == i * PIPE_SPACING_X,
        r@[0].y == 0,
        forall|i: int| 0 < i < r@.len() ==> pipe_y_in_range((#[trigger] r@[i]).y as int),
{
    let mut draws: Vec<i64> = Vec::new();
    let mut i: usize = 0;
    while i < PIPE_COUNT
        invariant
            i <= PIPE_COUNT,
            draws@.len() == i,
            forall|k: int| 0 <= k < i as int ==> -1000 <= #[trigger] draws@[k] < 1000,
        decreases PIPE_COUNT - i,
    {
        draws.push(rand_y_pos());
        i = i + 1;
    }
    spawn_pipes_with(&draws)
}

/// How one pipe pair may change during a playing frame: it scrolls left by
/// the elapsed time's worth of speed, and once fully past the left edge it
/// is recycled to exactly the right edge with a fresh offset in range.
pub open spec fn pipe_moved_ok(before: PipePair, after: PipePair, delta_ms: int) -> bool {
    let moved = before.x - PIPE_SPEED * delta_ms;
    if moved < -PIPE_EDGE_X {
        &&& after.x == PIPE_EDGE_X
        &&& pipe_y_in_range(after.y as int)
    } else {
        &&& after.x == moved
        &&& after.y == before.y
    }
}

/// Scrolls every pipe pair left while the game is playing, recycling each
/// pair that falls fully past the left window edge back to the right edge
/// with a freshly drawn vertical offset.  Outside active play nothing
/// moves.  No pair is ever created or destroyed here.
pub fn move_pipes(pipes: &mut Vec<PipePair>, delta_ms: i64, state: GameState)
    requires
        0 <= delta_ms <= MAX_DELTA_MS,
        forall|i: int|
            0 <= i < old(pipes)@.len() ==> abs_val((#[trigger] old(pipes)@[i]).x as int) <= MAX_COORD
                && abs_val(old(pipes)@[i].y as int) <= MAX_COORD,
    ensures
        final(pipes)@.len() == old(pipes)@.len(),
        state != GameState::Playing ==> final(pipes)@ == old(pipes)@,
        state == GameState::Playing ==> forall|i: int|
            0 <= i < old(pipes)@.len() ==> pipe_moved_ok(
                #[trigger] old(pipes)@[i],
                final(pipes)@[i],
                delta_ms as int,
            ),
{
    if !run_if_playing(state) {
        return ;
    }
    let shift = PIPE_SPEED * delta_ms;
    let n = pipes.len();
    let mut i: usize = 0;
    while i < n
        invariant
            state == GameState::Playing,
            0 <= delta_ms <= MAX_DELTA_MS,
            shift == PIPE_SPEED * delta_ms,
            i <= n,
            n == old(pipes)@.len(),
            pipes@.len() == n,
            forall|k: int|
                0 <= k < n ==> abs_val((#[trigger] old(pipes)@[k]).x as int) <= MAX_COORD && abs_val(
                    old(pipes)@[k].y as int,
                ) <= MAX_COORD,
            forall|k: int| i <= k < n ==> pipes@[k] == old(pipes)@[k],
            forall|k: int|
                0 <= k < i as int ==> pipe_moved_ok(
                    #[trigger] old(pipes)@[k],
                    pipes@[k],
                    delta_ms as int,
                ),
        decreases n - i,
    {
        let p = pipes[i];
        let moved = p.x - shift;
        if moved < -PIPE_EDGE_X {
            let draw = rand_y_pos();
            let y = pipe_y_offset(draw);
            pipes.set(i, PipePair { x: PIPE_EDGE_X, y });
        } else {
            pipes.set(i, PipePair { x: moved, y: p.y });
        }
        i = i + 1;
    }
}

/// On a game reset, the whole row of pipe pairs is destroyed and a fresh
/// row is spawned; without a reset nothing changes.
pub fn handle_game_reset(pipes: &mut Vec<PipePair>, reset: bool)
    ensures
        !reset ==> final(pipes)@ == old(pipes)@,
        reset ==> {
            &&& final(pipes)@.len() == PIPE_COUNT
            &&& forall|i: int|
                0 <= i < final(pipes)@.len() ==> (#[trigger] final(pipes)@[i]).x == i
                    * PIPE_SPACING_X
            &&& final(pipes)@[0].y == 0
            &&& forall|i: int|
                0 < i < final(pipes)@.len() ==> pipe_y_in_range(
                    (#[trigger] final(pipes)@[i]).y as int,
                )
        },
{
    if reset {
        *pipes = spawn_pipes();
    }
}

} // verus!
