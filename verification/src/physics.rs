//! Axis-aligned-box physics: body kinds, collision layers, overlap tests,
//! collision enter/exit event detection, and a simple per-frame Euler
//! integrator.
//!
//! Units: positions and half extents are in micro-pixels, velocities in
//! milli-pixels per second, elapsed time in milliseconds.  One milli-pixel
//! per second sustained for one millisecond is exactly one micro-pixel, so
//! integration is exact integer arithmetic.
//!
//! No contact resolution is modelled: the game only ever reads the
//! enter/exit events (a solid contact kills the bird before any response
//! would matter), so bodies are free to interpenetrate.

use vstd::prelude::*;

verus! {

/// Largest coordinate magnitude (position or half extent, micro-pixels)
/// that the physics functions accept.
pub const MAX_COORD: i64 = 4_000_000_000_000;

/// Largest velocity magnitude (milli-pixels per second) that the physics
/// functions accept.
pub const MAX_VEL: i64 = 2_000_000_000;

/// Longest frame (milliseconds) that the physics functions accept.
pub const MAX_DELTA_MS: i64 = 60_000;

/// Downward acceleration of dynamic bodies: each elapsed millisecond removes
/// this many milli-pixels per second of upward velocity (600 pixels per
/// second squared).
pub const GRAVITY_PER_MS: i64 = 600;

/// A two-dimensional integer vector.
#[derive(Clone, Copy, Debug, PartialEq, Eq, Structural, Default)]
pub struct Vec2 {
    pub x: i64,
    pub y: i64,
}

/// Semantic collision layer of a body.
#[derive(Clone, Copy, Debug, PartialEq, Eq, Structural)]
pub enum Layer {
    /// Solid obstacles: pipes, ground and ceiling.
    World,
    /// The bird.
    Player,
    /// The non-solid scoring sensor between a pipe pair.
    PipeGap,
}

/// Which layers a body belongs to (groups) and which layers it interacts
/// with (masks).
#[derive(Clone, Copy, Debug, PartialEq, Eq, Structural)]
pub struct CollisionLayers {
    pub group_world: bool,
    pub group_player: bool,
    pub group_pipe_gap: bool,
    pub mask_world: bool,
    pub mask_player: bool,
    pub mask_pipe_gap: bool,
}

impl CollisionLayers {
    /// Whether the body belongs to layer `l`.
    pub open spec fn spec_has_group(self, l: Layer) -> bool {
        match l {
            Layer::World => self.group_world,
            Layer::Player => self.group_player,
            Layer::PipeGap => self.group_pipe_gap,
        }
    }

    /// Whether the body's mask admits interaction with layer `l`.
    pub open spec fn spec_has_mask(self, l: Layer) -> bool {
        match l {
            Layer::World => self.mask_world,
            Layer::Player => self.mask_player,
            Layer::PipeGap => self.mask_pipe_gap,
        }
    }

    /// Layers with no groups and no masks.
    pub fn none() -> (r: CollisionLayers)
        ensures
            forall|l: Layer| !r.spec_has_group(l) && !r.spec_has_mask(l),
    {
        CollisionLayers {
            group_world: false,
            group_player: false,
            group_pipe_gap: false,
            mask_world: false,
            mask_player: false,
            mask_pipe_gap: false,
        }
    }

    /// Layers with every group and every mask.
    pub fn all() -> (r: CollisionLayers)
        ensures
            forall|l: Layer| r.spec_has_group(l) && r.spec_has_mask(l),
    {
        CollisionLayers {
            group_world: true,
            group_player: true,
            group_pipe_gap: true,
            mask_world: true,
            mask_player: true,
            mask_pipe_gap: true,
        }
    }

    /// Adds membership of layer `l`.
    pub fn with_group(self, l: Layer) -> (r: CollisionLayers)
        ensures
            forall|l2: Layer| r.spec_has_group(l2) == (self.spec_has_group(l2) || l2 == l),
            forall|l2: Layer| r.spec_has_mask(l2) == self.spec_has_mask(l2),
    {
        match l {
            Layer::World => CollisionLayers { group_world: true, ..self },
            Layer::Player => CollisionLayers { group_player: true, ..self },
            Layer::PipeGap => CollisionLayers { group_pipe_gap: true, ..self },
        }
    }

    /// Adds interaction with layer `l`.
    pub fn with_mask(self, l: Layer) -> (r: CollisionLayers)
        ensures
            forall|l2: Layer| r.spec_has_mask(l2) == (self.spec_has_mask(l2) || l2 == l),
            forall|l2: Layer| r.spec_has_group(l2) == self.spec_has_group(l2),
    {
        match l {
            Layer::World => CollisionLayers { mask_world: true, ..self },
            Layer::Player => CollisionLayers { mask_player: true, ..self },
            Layer::PipeGap => CollisionLayers { mask_pipe_gap: true, ..self },
        }
    }

    /// Whether the body belongs to layer `l`.
    pub fn contains_group(&self, l: Layer) -> (r: bool)
        ensures
            r == self.spec_has_group(l),
    {
        match l {
            Layer::World => self.group_world,
            Layer::Player => self.group_player,
            Layer::PipeGap => self.group_pipe_gap,
        }
    }
}

/// Whether some group of `a` meets a mask of `b`.
pub open spec fn groups_meet_masks(a: CollisionLayers, b: CollisionLayers) -> bool {
    ||| (a.group_world && b.mask_world)
    ||| (a.group_player && b.mask_player)
    ||| (a.group_pipe_gap && b.mask_pipe_gap)
}

/// Whether two bodies' layers permit interaction: each body's mask must
/// admit a group of the other.
pub open spec fn layers_interact(a: CollisionLayers, b: CollisionLayers) -> bool {
    groups_meet_masks(a, b) && groups_meet_masks(b, a)
}

/// Executable test of [`layers_interact`].
pub fn check_layers_interact(a: &CollisionLayers, b: &CollisionLayers) -> (r: bool)
    ensures
        r == layers_interact(*a, *b),
{
    let ab = (a.group_world && b.mask_world) || (a.group_player && b.mask_player) || (
    a.group_pipe_gap && b.mask_pipe_gap);
    let ba = (b.group_world && a.mask_world) || (b.group_player && a.mask_player) || (
    b.group_pipe_gap && a.mask_pipe_gap);
    ab && ba
}

/// How a body is moved by the engine.
#[derive(Clone, Copy, Debug, PartialEq, Eq, Structural)]
pub enum BodyKind {
    /// Immovable.
    Static,
    /// Affected by gravity; integrated each frame.
    Dynamic,
    /// Moved only by explicit position writes; ignores forces.
    KinematicPositionBased,
    /// Detects overlap without physical response; moved by position writes.
    Sensor,
}

/// An axis-aligned-box body.
#[derive(Clone, Copy, Debug, PartialEq, Eq, Structural)]
pub struct Body {
    pub kind: BodyKind,
    pub layers: CollisionLayers,
    /// Centre of the box, micro-pixels.
    pub pos: Vec2,
    /// Half side lengths of the box, micro-pixels.
    pub half_extents: Vec2,
    /// Velocity, milli-pixels per second; read only for dynamic bodies.
    pub vel: Vec2,
}

/// Magnitude of `v`.
pub open spec fn abs_val(v: int) -> int {
    if v < 0 {
        -v
    } else {
        v
    }
}

/// A product of bounded factors is bounded: scaling a value of magnitude at
/// most `vmax` by a factor between `0` and `dmax` stays within
/// `vmax * dmax`.
pub proof fn lemma_mul_bounds(v: int, d: int, vmax: int, dmax: int)
    requires
        -vmax <= v <= vmax,
        0 <= d <= dmax,
    ensures
        -(vmax * dmax) <= v * d <= vmax * dmax,
{
    assert(-(vmax * dmax) <= v * d <= vmax * dmax) by (nonlinear_arith)
        requires
            -vmax <= v <= vmax,
            0 <= d <= dmax,
    ;
}

/// Whether a body's coordinates are within the accepted ranges.
pub open spec fn body_in_bounds(b: Body) -> bool {
    &&& abs_val(b.pos.x as int) <= MAX_COORD
    &&& abs_val(b.pos.y as int) <= MAX_COORD
    &&& 0 <= b.half_extents.x <= MAX_COORD
    &&& 0 <= b.half_extents.y <= MAX_COORD
    &&& abs_val(b.vel.x as int) <= MAX_VEL
    &&& abs_val(b.vel.y as int) <= MAX_VEL
}

/// Whether the boxes of `a` and `b` geometrically overlap (strictly; mere
/// touching is not overlap).
pub open spec fn aabb_overlap(a: Body, b: Body) -> bool {
    &&& abs_val(a.pos.x - b.pos.x) < a.half_extents.x + b.half_extents.x
    &&& abs_val(a.pos.y - b.pos.y) < a.half_extents.y + b.half_extents.y
}

/// Executable test of [`aabb_overlap`].
pub fn check_aabb_overlap(a: &Body, b: &Body) -> (r: bool)
    requires
        body_in_bounds(*a),
        body_in_bounds(*b),
    ensures
        r == aabb_overlap(*a, *b),
{
    let dx = a.pos.x - b.pos.x;
    let dy = a.pos.y - b.pos.y;
    let adx = if dx < 0 { -dx } else { dx };
    let ady = if dy < 0 { -dy } else { dy };
    adx < a.half_extents.x + b.half_extents.x && ady < a.half_extents.y + b.half_extents.y
}

/// `b` one frame later: a dynamic body loses upward velocity to gravity and
/// moves by its (new) velocity; every other kind is left untouched.
pub open spec fn body_stepped(b: Body, delta_ms: int) -> Body {
    match b.kind {
        BodyKind::Dynamic => {
            let vy = b.vel.y - GRAVITY_PER_MS * delta_ms;
            Body {
                pos: Vec2 {
                    x: (b.pos.x + b.vel.x * delta_ms) as i64,
                    y: (b.pos.y + vy * delta_ms) as i64,
                },
                vel: Vec2 { x: b.vel.x, y: vy as i64 },
                ..b
            }
        },
        _ => b,
    }
}

/// Integrates gravity and motion over `delta_ms` for every dynamic body in
/// `bodies`; static, kinematic and sensor bodies are untouched.
pub fn step_bodies(bodies: &mut Vec<Body>, delta_ms: i64)
    requires
        0 <= delta_ms <= MAX_DELTA_MS,
        forall|i: int| 0 <= i < old(bodies)@.len() ==> body_in_bounds(#[trigger] old(bodies)@[i]),
    ensures
        final(bodies)@.len() == old(bodies)@.len(),
        forall|i: int|
            0 <= i < old(bodies)@.len() ==> final(bodies)@[i] == body_stepped(
                #[trigger] old(bodies)@[i],
                delta_ms as int,
            ),
{
    let n = bodies.len();
    let mut i: usize = 0;
    while i < n
        invariant
            0 <= delta_ms <= MAX_DELTA_MS,
            i <= n,
            n == old(bodies)@.len(),
            bodies@.len() == n,
            forall|k: int| i <= k < n ==> bodies@[k] == old(bodies)@[k],
            forall|k: int| 0 <= k < n ==> body_in_bounds(#[trigger] old(bodies)@[k]),
            forall|k: int|
                0 <= k < i ==> bodies@[k] == body_stepped(
                    #[trigger] old(bodies)@[k],
                    delta_ms as int,
                ),
        decreases n - i,
    {
        let b = bodies[i];
        match b.kind {
            BodyKind::Dynamic => {
                let vy = b.vel.y - GRAVITY_PER_MS * delta_ms;
                proof {
                    lemma_mul_bounds(
                        b.vel.x as int,
                        delta_ms as int,
                        MAX_VEL as int,
                        MAX_DELTA_MS as int,
                    );
                    lemma_mul_bounds(
                        vy as int,
                        delta_ms as int,
                        MAX_VEL as int + 36_000_000,
                        MAX_DELTA_MS as int,
                    );
                }
                let moved = Body {
                    pos: Vec2 { x: b.pos.x + b.vel.x * delta_ms, y: b.pos.y + vy * delta_ms },
                    vel: Vec2 { x: b.vel.x, y: vy },
                    ..b
                };
                bodies.set(i, moved);
            },
            _ => {},
        }
        i = i + 1;
    }
}

/// A collision event: the boxes of two bodies whose masks permit interaction
/// began or ceased to overlap.  Each side carries its collision layers.
#[derive(Clone, Copy, Debug, PartialEq, Eq, Structural)]
pub enum CollisionEvent {
    Started(CollisionLayers, CollisionLayers),
    Stopped(CollisionLayers, CollisionLayers),
}

/// The events one body pair contributes, given its boxes before and after
/// the frame's movement.
pub open spec fn pair_events(a0: Body, b0: Body, a1: Body, b1: Body) -> Seq<CollisionEvent> {
    if layers_interact(a1.layers, b1.layers) {
        if !aabb_overlap(a0, b0) && aabb_overlap(a1, b1) {
            seq![CollisionEvent::Started(a1.layers, b1.layers)]
        } else if aabb_overlap(a0, b0) && !aabb_overlap(a1, b1) {
            seq![CollisionEvent::Stopped(a1.layers, b1.layers)]
        } else {
            Seq::empty()
        }
    } else {
        Seq::empty()
    }
}

/// Events of the pairs `(i, j), (i, j + 1), ...` up to the end of the row.
pub open spec fn row_events(before: Seq<Body>, after: Seq<Body>, i: int, j: int) -> Seq<
    CollisionEvent,
>
    decreases before.len() - j,
{
    if j < before.len() && 0 <= j {
        pair_events(before[i], before[j], after[i], after[j]) + row_events(before, after, i, j + 1)
    } else {
        Seq::empty()
    }
}

/// Events of every pair `(k, j)` with `i <= k < j`.
pub open spec fn events_from(before: Seq<Body>, after: Seq<Body>, i: int) -> Seq<CollisionEvent>
    decreases before.len() - i,
{
    if i < before.len() && 0 <= i {
        row_events(before, after, i, i + 1) + events_from(before, after, i + 1)
    } else {
        Seq::empty()
    }
}

/// All collision events of a frame, in index order: for each unordered body
/// pair whose masks permit interaction, a started event where overlap is new
/// and a stopped event where it ceased.
pub open spec fn collision_events(before: Seq<Body>, after: Seq<Body>) -> Seq<CollisionEvent> {
    events_from(before, after, 0)
}

/// A row contributes at most one event per remaining pair.
pub proof fn lemma_row_events_len(before: Seq<Body>, after: Seq<Body>, i: int, j: int)
    requires
        0 <= j <= before.len(),
    ensures
        row_events(before, after, i, j).len() <= before.len() - j,
    decreases before.len() - j,
{
    if j < before.len() {
        lemma_row_events_len(before, after, i, j + 1);
    }
}

/// A frame yields at most one event per body pair, so no more than the
/// squared body count.
pub proof fn lemma_events_from_len(before: Seq<Body>, after: Seq<Body>, i: int)
    requires
        0 <= i <= before.len(),
    ensures
        events_from(before, after, i).len() <= (before.len() - i) * before.len(),
    decreases before.len() - i,
{
    let n = before.len() as int;
    if i < n {
        lemma_row_events_len(before, after, i, i + 1);
        lemma_events_from_len(before, after, i + 1);
        assert((n - i) * n == (n - i - 1) * n + n) by (nonlinear_arith);
    } else {
        assert((n - i) * n == 0) by (nonlinear_arith)
            requires
                i == n,
        ;
    }
}

/// Detects the frame's collision events from the body list before and after
/// the frame's movement.  The two lists describe the same bodies, index by
/// index.
pub fn detect_events(before: &Vec<Body>, after: &Vec<Body>) -> (r: Vec<CollisionEvent>)
    requires
        before@.len() == after@.len(),
        forall|i: int| 0 <= i < before@.len() ==> body_in_bounds(#[trigger] before@[i]),
        forall|i: int| 0 <= i < after@.len() ==> body_in_bounds(#[trigger] after@[i]),
    ensures
        r@ == collision_events(before@, after@),
{
    let n = before.len();
    let mut out: Vec<CollisionEvent> = Vec::new();
    let mut i: usize = 0;
    while i < n
        invariant
            i <= n,
            n == before@.len(),
            n == after@.len(),
            forall|k: int| 0 <= k < n ==> body_in_bounds(#[trigger] before@[k]),
            forall|k: int| 0 <= k < n ==> body_in_bounds(#[trigger] after@[k]),
            out@ + events_from(before@, after@, i as int) == collision_events(before@, after@),
        decreases n - i,
    {
        let mut j: usize = i + 1;
        proof {
            assert(events_from(before@, after@, i as int) == row_events(
                before@,
                after@,
                i as int,
                i as int + 1,
            ) + events_from(before@, after@, i as int + 1));
            assert(out@ + (row_events(before@, after@, i as int, i as int + 1) + events_from(
                before@,
                after@,
                i as int + 1,
            )) =~= out@ + row_events(before@, after@, i as int, i as int + 1) + events_from(
                before@,
                after@,
                i as int + 1,
            ));
        }
        while j < n
            invariant
                i < j <= n,
                i < n,
                n == before@.len(),
                n == after@.len(),
                forall|k: int| 0 <= k < n ==> body_in_bounds(#[trigger] before@[k]),
                forall|k: int| 0 <= k < n ==> body_in_bounds(#[trigger] after@[k]),
                out@ + row_events(before@, after@, i as int, j as int) + events_from(
                    before@,
                    after@,
                    i as int + 1,
                ) == collision_events(before@, after@),
            decreases n - j,
        {
            let ghost out_pre = out@;
            let inter = check_layers_interact(&after[i].layers, &after[j].layers);
            let ov0 = check_aabb_overlap(&before[i], &before[j]);
            let ov1 = check_aabb_overlap(&after[i], &after[j]);
            if inter && !ov0 && ov1 {
                out.push(CollisionEvent::Started(after[i].layers, after[j].layers));
            } else if inter && ov0 && !ov1 {
                out.push(CollisionEvent::Stopped(after[i].layers, after[j].layers));
            }
            proof {
                let bi = before@[i as int];
                let bj = before@[j as int];
                let ai = after@[i as int];
                let aj = after@[j as int];
                assert(row_events(before@, after@, i as int, j as int) == pair_events(bi, bj, ai, aj)
                    + row_events(before@, after@, i as int, j as int + 1));
                assert(out@ =~= out_pre + pair_events(bi, bj, ai, aj));
                assert(out@ + row_events(before@, after@, i as int, j as int + 1) =~= out_pre
                    + row_events(before@, after@, i as int, j as int));
            }
            j = j + 1;
        }
        proof {
            assert(row_events(before@, after@, i as int, n as int) =~= Seq::<
                CollisionEvent,
            >::empty());
            assert(out@ + row_events(before@, after@, i as int, n as int) =~= out@);
        }
        i = i + 1;
    }
    out
}

/// The per-frame integrator state of one entity: velocity and the force
/// accumulated for this frame, both in micro-pixels per frame.
#[derive(Clone, Copy, Debug, PartialEq, Eq, Structural, Default)]
pub struct PhysicsEnt {
    pub velocity: Vec2,
    pub acceleration: Vec2,
}

impl PhysicsEnt {
    /// Accumulates a force (milli-pixels per frame per second) scaled by the
    /// elapsed milliseconds into this frame's acceleration.
    pub fn apply_force(&mut self, force: Vec2, delta_ms: i64)
        requires
            0 <= delta_ms <= MAX_DELTA_MS,
            abs_val(force.x as int) <= MAX_VEL,
            abs_val(force.y as int) <= MAX_VEL,
            abs_val(old(self).acceleration.x as int) <= MAX_COORD,
            abs_val(old(self).acceleration.y as int) <= MAX_COORD,
        ensures
            final(self).acceleration.x == old(self).acceleration.x + force.x * delta_ms,
            final(self).acceleration.y == old(self).acceleration.y + force.y * delta_ms,
            final(self).velocity == old(self).velocity,
    {
        proof {
            lemma_mul_bounds(force.x as int, delta_ms as int, MAX_VEL as int, MAX_DELTA_MS as int);
            lemma_mul_bounds(force.y as int, delta_ms as int, MAX_VEL as int, MAX_DELTA_MS as int);
        }
        self.acceleration.x = self.acceleration.x + force.x * delta_ms;
        self.acceleration.y = self.acceleration.y + force.y * delta_ms;
    }

    /// Zeroes the velocity; the accumulated force is untouched.
    pub fn reset_velocity(&mut self)
        ensures
            final(self).velocity == (Vec2 { x: 0, y: 0 }),
            final(self).acceleration == old(self).acceleration,
    {
        self.velocity = Vec2 { x: 0, y: 0 };
    }
}

/// Marker for entities the gravity system acts on.
#[derive(Clone, Copy, Debug, PartialEq, Eq, Structural, Default)]
pub struct GravityEnt;

/// One integrator frame over every entity: the accumulated force joins the
/// velocity, the velocity carries the position, and the accumulator clears.
pub fn update_physic_ents(ents: &mut Vec<(Vec2, PhysicsEnt)>)
    requires
        forall|i: int|
            0 <= i < old(ents)@.len() ==> {
                let (pos, ent) = #[trigger] old(ents)@[i];
                &&& abs_val(pos.x as int) <= MAX_COORD
                &&& abs_val(pos.y as int) <= MAX_COORD
                &&& abs_val(ent.velocity.x as int) <= MAX_COORD
                &&& abs_val(ent.velocity.y as int) <= MAX_COORD
                &&& abs_val(ent.acceleration.x as int) <= MAX_COORD
                &&& abs_val(ent.acceleration.y as int) <= MAX_COORD
            },
    ensures
        final(ents)@.len() == old(ents)@.len(),
        forall|i: int|
            0 <= i < old(ents)@.len() ==> {
                let (pos, ent) = #[trigger] old(ents)@[i];
                let (pos2, ent2) = final(ents)@[i];
                &&& ent2.velocity.x == ent.velocity.x + ent.acceleration.x
                &&& ent2.velocity.y == ent.velocity.y + ent.acceleration.y
                &&& pos2.x == pos.x + ent.velocity.x + ent.acceleration.x
                &&& pos2.y == pos.y + ent.velocity.y + ent.acceleration.y
                &&& ent2.acceleration == (Vec2 { x: 0, y: 0 })
            },
{
    let n = ents.len();
    let mut i: usize = 0;
    while i < n
        invariant
            i <= n,
            n == old(ents)@.len(),
            ents@.len() == n,
            forall|k: int| i <= k < n ==> ents@[k] == old(ents)@[k],
            forall|k: int|
                0 <= k < n ==> {
                    let (pos, ent) = #[trigger] old(ents)@[k];
                    &&& abs_val(pos.x as int) <= MAX_COORD
                    &&& abs_val(pos.y as int) <= MAX_COORD
                    &&& abs_val(ent.velocity.x as int) <= MAX_COORD
                    &&& abs_val(ent.velocity.y as int) <= MAX_COORD
                    &&& abs_val(ent.acceleration.x as int) <= MAX_COORD
                    &&& abs_val(ent.acceleration.y as int) <= MAX_COORD
                },
            forall|k: int|
                0 <= k < i ==> {
                    let (pos, ent) = #[trigger] old(ents)@[k];
                    let (pos2, ent2) = ents@[k];
                    &&& ent2.velocity.x == ent.velocity.x + ent.acceleration.x
                    &&& ent2.velocity.y == ent.velocity.y + ent.acceleration.y
                    &&& pos2.x == pos.x + ent.velocity.x + ent.acceleration.x
                    &&& pos2.y == pos.y + ent.velocity.y + ent.acceleration.y
                    &&& ent2.acceleration == (Vec2 { x: 0, y: 0 })
                },
        decreases n - i,
    {
        let (pos, ent) = ents[i];
        let vx = ent.velocity.x + ent.acceleration.x;
        let vy = ent.velocity.y + ent.acceleration.y;
        let moved = (
            Vec2 { x: pos.x + vx, y: pos.y + vy },
            PhysicsEnt { velocity: Vec2 { x: vx, y: vy }, acceleration: Vec2 { x: 0, y: 0 } },
        );
        ents.set(i, moved);
        i = i + 1;
    }
}

/// Force the gravity system applies each frame to entities marked with
/// [`GravityEnt`] (milli-pixels per frame per second).
pub const ENT_GRAVITY: i64 = 25_000;

/// Applies the downward gravity force to every given integrator entity,
/// scaled by the elapsed milliseconds.
pub fn update_gravity_ents(ents: &mut Vec<PhysicsEnt>, delta_ms: i64)
    requires
        0 <= delta_ms <= MAX_DELTA_MS,
        forall|i: int|
            0 <= i < old(ents)@.len() ==> {
                let ent = #[trigger] old(ents)@[i];
                &&& abs_val(ent.acceleration.x as int) <= MAX_COORD
                &&& abs_val(ent.acceleration.y as int) <= MAX_COORD
            },
    ensures
        final(ents)@.len() == old(ents)@.len(),
        forall|i: int|
            0 <= i < old(ents)@.len() ==> {
                let ent = #[trigger] old(ents)@[i];
                let ent2 = final(ents)@[i];
                &&& ent2.acceleration.x == ent.acceleration.x
                &&& ent2.acceleration.y == ent.acceleration.y - ENT_GRAVITY * delta_ms
                &&& ent2.velocity == ent.velocity
            },
{
    let n = ents.len();
    let mut i: usize = 0;
    while i < n
        invariant
            0 <= delta_ms <= MAX_DELTA_MS,
            i <= n,
            n == old(ents)@.len(),
            ents@.len() == n,
            forall|k: int| i <= k < n ==> ents@[k] == old(ents)@[k],
            forall|k: int|
                0 <= k < n ==> {
                    let ent = #[trigger] old(ents)@[k];
                    &&& abs_val(ent.acceleration.x as int) <= MAX_COORD
                    &&& abs_val(ent.acceleration.y as int) <= MAX_COORD
                },
            forall|k: int|
                0 <= k < i ==> {
                    let ent = #[trigger] old(ents)@[k];
                    let ent2 = ents@[k];
                    &&& ent2.acceleration.x == ent.acceleration.x
                    &&& ent2.acceleration.y == ent.acceleration.y - ENT_GRAVITY * delta_ms
                    &&& ent2.velocity == ent.velocity
                },
        decreases n - i,
    {
        let mut ent = ents[i];
        ent.apply_force(Vec2 { x: 0, y: -ENT_GRAVITY }, delta_ms);
        ents.set(i, ent);
        i = i + 1;
    }
}

} // verus!
