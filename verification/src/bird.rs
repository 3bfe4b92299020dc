//! The player-controlled bird: flap impulse, reset and death handling, and
//! the cosmetic tilt animation.
//!
//! Units follow the physics module: positions in micro-pixels, velocities in
//! milli-pixels per second, time in milliseconds.  The cosmetic rotation is
//! in milli-radians.

use vstd::prelude::*;

verus! {

use vstd::arithmetic::div_mod::{lemma_div_is_ordered, lemma_div_multiples_vanish,
    lemma_div_pos_is_pos};
use vstd::arithmetic::mul::{lemma_mul_inequality, lemma_mul_is_commutative, lemma_mul_nonnegative};
use crate::game_state::{run_if_playing, GameState};
use crate::physics::{abs_val, lemma_mul_bounds, Body, BodyKind, CollisionLayers, Vec2,
    GRAVITY_PER_MS, MAX_COORD, MAX_DELTA_MS, MAX_VEL};

/// Upward impulse a flap gives, milli-pixels per second (300 pixels per
/// second).
pub const JUMP_FORCE: i64 = 300_000;

/// Half width of the bird's collision box, micro-pixels (8 pixels).
pub const BIRD_HALF_X: i64 = 8_000_000;

/// Half height of the bird's collision box, micro-pixels (5 pixels).
pub const BIRD_HALF_Y: i64 = 5_000_000;

/// Magnitude of the tilt targets, milli-radians (0.3 radians).
pub const TILT_LIMIT: i64 = 300;

/// Rotation the downward tilt eases toward, milli-radians.
pub const TILT_DOWN_TARGET: i64 = -300;

/// Duration of the ease toward the upward tilt, milliseconds.
pub const TILT_UP_MS: i64 = 400;

/// Duration of the ease toward the downward tilt, milliseconds.
pub const TILT_DOWN_MS: i64 = 800;

/// Which tilt the bird last animated toward; the two directions are
/// mutually exclusive.
#[derive(Clone, Copy, Debug, PartialEq, Eq, Structural)]
pub enum Tilt {
    Level,
    Up,
    Down,
}

/// An in-flight rotation animation: a time-bounded quadratic-out ease from
/// `start` to `end` (milli-radians) over `duration` milliseconds, of which
/// `elapsed` have passed.
#[derive(Clone, Copy, Debug, PartialEq, Eq, Structural)]
pub struct Easing {
    pub start: i64,
    pub end: i64,
    pub duration: i64,
    pub elapsed: i64,
}

/// Well-formedness of an easing record.
pub open spec fn easing_wf(e: Easing) -> bool {
    &&& 0 < e.duration <= TILT_DOWN_MS
    &&& 0 <= e.elapsed <= e.duration
    &&& abs_val(e.start as int) <= TILT_LIMIT
    &&& abs_val(e.end as int) <= TILT_LIMIT
}

/// The eased value at `e.elapsed`: with progress `t = elapsed / duration`,
/// quadratic-out blends by `1 - (1 - t)^2`, here in exact integer
/// arithmetic with the rounding toward `start`.
pub open spec fn ease_sample(e: Easing) -> int {
    let d = e.duration as int;
    let num = d * d - (d - e.elapsed) * (d - e.elapsed);
    if e.end >= e.start {
        e.start + ((e.end - e.start) * num) / (d * d)
    } else {
        e.start - ((e.start - e.end) * num) / (d * d)
    }
}

/// The eased value stays between its endpoints, and reaches `end` exactly
/// when the elapsed time reaches the duration.
pub proof fn lemma_ease_sample_in_range(e: Easing)
    requires
        easing_wf(e),
    ensures
        e.start <= e.end ==> e.start <= ease_sample(e) <= e.end,
        e.end <= e.start ==> e.end <= ease_sample(e) <= e.start,
        abs_val(ease_sample(e)) <= TILT_LIMIT,
        e.elapsed == e.duration ==> ease_sample(e) == e.end,
{
    let d = e.duration as int;
    let rem = d - e.elapsed;
    let num = d * d - rem * rem;
    let den = d * d;
    assert(0 < den && 0 <= num <= den) by (nonlinear_arith)
        requires
            num == d * d - rem * rem,
            den == d * d,
            0 <= rem <= d,
            0 < d,
    ;
    if e.elapsed == e.duration {
        assert(rem == 0);
        assert(num == den) by (nonlinear_arith)
            requires
                num == den - rem * rem,
                rem == 0,
        ;
    }
    if e.end >= e.start {
        let delta = e.end - e.start;
        lemma_scaled_progress_in_range(delta, num, den);
    } else {
        let delta = e.start - e.end;
        lemma_scaled_progress_in_range(delta, num, den);
    }
}

/// The scaled progress `(delta * num) / den` lies between `0` and `delta`
/// whenever `num` lies between `0` and `den`, and equals `delta` when
/// `num == den`.
pub proof fn lemma_scaled_progress_in_range(delta: int, num: int, den: int)
    requires
        0 <= delta,
        0 <= num <= den,
        0 < den,
    ensures
        0 <= (delta * num) / den <= delta,
        num == den ==> (delta * num) / den == delta,
{
    lemma_mul_nonnegative(delta, num);
    lemma_div_pos_is_pos(delta * num, den);
    lemma_mul_inequality(num, den, delta);
    lemma_mul_is_commutative(num, delta);
    lemma_mul_is_commutative(den, delta);
    lemma_div_is_ordered(num * delta, den * delta, den);
    lemma_div_multiples_vanish(delta, den);
}

/// Computes `(delta * num) / den` for a small non-negative scale factor.
fn scaled_progress(delta: i64, num: i64, den: i64) -> (q: i64)
    requires
        0 <= delta <= 600,
        0 <= num <= den,
        0 < den <= 640_000,
    ensures
        q == (delta * num) / (den as int),
        0 <= q <= delta,
{
    proof {
        lemma_scaled_progress_in_range(delta as int, num as int, den as int);
        assert(0 <= delta * num <= 600 * 640_000) by (nonlinear_arith)
            requires
                0 <= delta <= 600,
                0 <= num <= 640_000,
        ;
    }
    (((delta as u64) * (num as u64)) / (den as u64)) as i64
}

/// Evaluates [`ease_sample`] in executable code.
fn ease_value(e: &Easing) -> (r: i64)
    requires
        easing_wf(*e),
    ensures
        r as int == ease_sample(*e),
{
    let d = e.duration;
    let rem = d - e.elapsed;
    proof {
        assert(0 <= rem * rem && rem * rem <= d * d && 0 < d * d && d * d <= 640_000) by (nonlinear_arith)
            requires
                0 <= rem <= d,
                0 < d <= 800,
        ;
    }
    let num = d * d - rem * rem;
    let den = d * d;
    if e.end >= e.start {
        let q = scaled_progress(e.end - e.start, num, den);
        e.start + q
    } else {
        let q = scaled_progress(e.start - e.end, num, den);
        e.start - q
    }
}

/// The bird's whole controller state.
#[derive(Clone, Copy, Debug, PartialEq, Eq, Structural)]
pub struct Bird {
    /// Centre of the bird, micro-pixels.
    pub pos: Vec2,
    /// Velocity, milli-pixels per second.
    pub vel: Vec2,
    /// Whether a dynamic physics body is attached; only then does the bird
    /// fall and collide.
    pub has_body: bool,
    /// Cosmetic rotation, milli-radians; identity is `0`.
    pub rotation: i64,
    /// Which tilt the bird last animated toward.
    pub tilt: Tilt,
    /// The in-flight tilt animation, if any.
    pub easing: Option<Easing>,
}

/// Well-formedness of the bird's animation state.
pub open spec fn bird_wf(b: Bird) -> bool {
    &&& abs_val(b.rotation as int) <= TILT_LIMIT
    &&& match b.easing {
        Some(e) => easing_wf(e),
        None => true,
    }
}

/// The bird as spawned: at the origin, at rest, without a physics body,
/// upright and unanimated.
pub open spec fn initial_bird() -> Bird {
    Bird {
        pos: Vec2 { x: 0, y: 0 },
        vel: Vec2 { x: 0, y: 0 },
        has_body: false,
        rotation: 0,
        tilt: Tilt::Level,
        easing: None,
    }
}

/// Spawns the one bird of the game.
pub fn spawn_bird() -> (r: Bird)
    ensures
        r == initial_bird(),
        bird_wf(r),
{
    Bird {
        pos: Vec2 { x: 0, y: 0 },
        vel: Vec2 { x: 0, y: 0 },
        has_body: false,
        rotation: 0,
        tilt: Tilt::Level,
        easing: None,
    }
}

/// The collision layers of the bird: member of every group, interacting
/// with every layer.
pub open spec fn bird_layers() -> CollisionLayers {
    CollisionLayers {
        group_world: true,
        group_player: true,
        group_pipe_gap: true,
        mask_world: true,
        mask_player: true,
        mask_pipe_gap: true,
    }
}

/// The bird's collision body.
pub open spec fn bird_body_spec(b: Bird) -> Body {
    Body {
        kind: BodyKind::Dynamic,
        layers: bird_layers(),
        pos: b.pos,
        half_extents: Vec2 { x: BIRD_HALF_X, y: BIRD_HALF_Y },
        vel: b.vel,
    }
}

/// Builds the bird's collision body.
pub fn bird_body(b: &Bird) -> (r: Body)
    ensures
        r == bird_body_spec(*b),
{
    Body {
        kind: BodyKind::Dynamic,
        layers: CollisionLayers {
            group_world: true,
            group_player: true,
            group_pipe_gap: true,
            mask_world: true,
            mask_player: true,
            mask_pipe_gap: true,
        },
        pos: b.pos,
        half_extents: Vec2 { x: BIRD_HALF_X, y: BIRD_HALF_Y },
        vel: b.vel,
    }
}

/// The vertical velocity right after a flap: any downward motion is clamped
/// away before the fixed impulse is added.
pub open spec fn flap_velocity(vy: int) -> int {
    if vy < 0 {
        JUMP_FORCE as int
    } else {
        vy + JUMP_FORCE
    }
}

impl Bird {
    /// Primary-action input: while playing, a press clamps downward motion
    /// to zero, applies the fixed upward impulse, and reports that a flap
    /// signal is owed; any other combination changes nothing.
    pub fn bird_input(&mut self, pressed: bool, state: GameState) -> (flapped: bool)
        requires
            old(self).vel.y <= i64::MAX - JUMP_FORCE,
        ensures
            flapped == (pressed && state == GameState::Playing),
            flapped ==> {
                &&& final(self).vel.y == flap_velocity(old(self).vel.y as int)
                &&& final(self).vel.x == old(self).vel.x
                &&& final(self).pos == old(self).pos
                &&& final(self).has_body == old(self).has_body
                &&& final(self).rotation == old(self).rotation
                &&& final(self).tilt == old(self).tilt
                &&& final(self).easing == old(self).easing
            },
            !flapped ==> *final(self) == *old(self),
    {
        if pressed && run_if_playing(state) {
            if self.vel.y < 0 {
                self.vel.y = 0;
            }
            self.vel.y = self.vel.y + JUMP_FORCE;
            true
        } else {
            false
        }
    }

    /// Play began: a dynamic physics body attaches, and from now on the
    /// bird falls and collides.
    pub fn on_game_started(&mut self)
        ensures
            *final(self) == (Bird { has_body: true, ..*old(self) }),
    {
        self.has_body = true;
    }

    /// A game reset: back to the origin at rest, upright, without a physics
    /// body, and any in-flight tilt animation is dropped.
    pub fn handle_game_reset(&mut self)
        ensures
            *final(self) == initial_bird(),
            bird_wf(*final(self)),
    {
        self.pos = Vec2 { x: 0, y: 0 };
        self.vel = Vec2 { x: 0, y: 0 };
        self.has_body = false;
        self.rotation = 0;
        self.tilt = Tilt::Level;
        self.easing = None;
    }

    /// The bird died: the physics body detaches and any in-flight tilt
    /// animation is cancelled; position, velocity and rotation remain.
    pub fn on_died(&mut self)
        ensures
            *final(self) == (Bird { has_body: false, easing: None, ..*old(self) }),
    {
        self.has_body = false;
        self.easing = None;
    }

    /// While playing, an upward-moving bird not already tilting up starts a
    /// fresh ease toward the upward tilt, replacing any animation in
    /// flight; otherwise nothing changes.
    pub fn handle_bird_tilt_up(&mut self, state: GameState)
        requires
            bird_wf(*old(self)),
        ensures
            bird_wf(*final(self)),
            state == GameState::Playing && old(self).vel.y > 0 && old(self).tilt != Tilt::Up
                ==> *final(self) == (Bird {
                tilt: Tilt::Up,
                easing: Some(
                    Easing {
                        start: old(self).rotation,
                        end: TILT_LIMIT,
                        duration: TILT_UP_MS,
                        elapsed: 0,
                    },
                ),
                ..*old(self)
            }),
            !(state == GameState::Playing && old(self).vel.y > 0 && old(self).tilt != Tilt::Up)
                ==> *final(self) == *old(self),
    {
        if run_if_playing(state) && self.vel.y > 0 && !matches!(self.tilt, Tilt::Up) {
            self.easing = Some(
                Easing { start: self.rotation, end: TILT_LIMIT, duration: TILT_UP_MS, elapsed: 0 },
            );
            self.tilt = Tilt::Up;
        }
    }

    /// While playing, a downward-moving bird not already tilting down
    /// starts a fresh ease toward the downward tilt, replacing any
    /// animation in flight; otherwise nothing changes.
    pub fn handle_bird_tilt_down(&mut self, state: GameState)
        requires
            bird_wf(*old(self)),
        ensures
            bird_wf(*final(self)),
            state == GameState::Playing && old(self).vel.y < 0 && old(self).tilt != Tilt::Down
                ==> *final(self) == (Bird {
                tilt: Tilt::Down,
                easing: Some(
                    Easing {
                        start: old(self).rotation,
                        end: TILT_DOWN_TARGET,
                        duration: TILT_DOWN_MS,
                        elapsed: 0,
                    },
                ),
                ..*old(self)
            }),
            !(state == GameState::Playing && old(self).vel.y < 0 && old(self).tilt != Tilt::Down)
                ==> *final(self) == *old(self),
    {
        if run_if_playing(state) && self.vel.y < 0 && !matches!(self.tilt, Tilt::Down) {
            self.easing = Some(
                Easing {
                    start: self.rotation,
                    end: TILT_DOWN_TARGET,
                    duration: TILT_DOWN_MS,
                    elapsed: 0,
                },
            );
            self.tilt = Tilt::Down;
        }
    }

    /// Advances the in-flight tilt animation by `delta_ms`: the rotation
    /// takes the eased value, and an animation that reaches its duration
    /// lands exactly on its target and is removed.
    pub fn advance_easing(&mut self, delta_ms: i64)
        requires
            bird_wf(*old(self)),
            0 <= delta_ms <= MAX_DELTA_MS,
        ensures
            bird_wf(*final(self)),
            old(self).easing is None ==> *final(self) == *old(self),
            old(self).easing matches Some(e) ==> {
                let el2 = if e.elapsed + delta_ms >= e.duration {
                    e.duration as int
                } else {
                    e.elapsed + delta_ms
                };
                let adv = Easing { elapsed: el2 as i64, ..e };
                &&& final(self).rotation == ease_sample(adv)
                &&& (el2 == e.duration ==> final(self).easing is None && final(self).rotation
                    == e.end)
                &&& (el2 < e.duration ==> final(self).easing == Some(adv))
                &&& final(self).pos == old(self).pos
                &&& final(self).vel == old(self).vel
                &&& final(self).has_body == old(self).has_body
                &&& final(self).tilt == old(self).tilt
            },
    {
        if let Some(e) = self.easing {
            let el2 = if e.elapsed + delta_ms >= e.duration {
                e.duration
            } else {
                e.elapsed + delta_ms
            };
            let adv = Easing { elapsed: el2, ..e };
            proof {
                lemma_ease_sample_in_range(adv);
            }
            self.rotation = ease_value(&adv);
            if el2 == e.duration {
                self.easing = None;
            } else {
                self.easing = Some(adv);
            }
        }
    }

    /// One physics frame for the bird: with a body attached, gravity takes
    /// from the vertical velocity and the new velocity carries the
    /// position; without one the bird is kinematically inert.
    pub fn physics_step(&mut self, delta_ms: i64)
        requires
            0 <= delta_ms <= MAX_DELTA_MS,
            abs_val(old(self).pos.x as int) <= MAX_COORD,
            abs_val(old(self).pos.y as int) <= MAX_COORD,
            abs_val(old(self).vel.x as int) <= MAX_VEL,
            abs_val(old(self).vel.y as int) <= MAX_VEL,
        ensures
            old(self).has_body ==> {
                let vy = old(self).vel.y - GRAVITY_PER_MS * delta_ms;
                &&& final(self).vel.y == vy
                &&& final(self).vel.x == old(self).vel.x
                &&& final(self).pos.x == old(self).pos.x + old(self).vel.x * delta_ms
                &&& final(self).pos.y == old(self).pos.y + vy * delta_ms
                &&& final(self).has_body == old(self).has_body
                &&& final(self).rotation == old(self).rotation
                &&& final(self).tilt == old(self).tilt
                &&& final(self).easing == old(self).easing
            },
            !old(self).has_body ==> *final(self) == *old(self),
    {
        if self.has_body {
            let vy = self.vel.y - GRAVITY_PER_MS * delta_ms;
            proof {
                lemma_mul_bounds(
                    self.vel.x as int,
                    delta_ms as int,
                    MAX_VEL as int,
                    MAX_DELTA_MS as int,
                );
                lemma_mul_bounds(
                    vy as int,
                    delta_ms as int,
                    MAX_VEL as int + 36_000_000,
                    MAX_DELTA_MS as int,
                );
            }
            self.vel.y = vy;
            self.pos.x = self.pos.x + self.vel.x * delta_ms;
            self.pos.y = self.pos.y + vy * delta_ms;
        }
    }
}

} // verus!
