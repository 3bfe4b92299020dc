//! The game-state-driven entity update loop: one deterministic simulation
//! step per rendered frame, combining input handling, physics integration,
//! collision-triggered state transitions, obstacle recycling, scoring and
//! the tilt animation, coordinated through the shared game state and the
//! frame's one-shot signals.

use vstd::prelude::*;

verus! {

use crate::bird::{bird_body, bird_body_spec, bird_wf, flap_velocity, initial_bird, spawn_bird,
    Bird, Easing, Tilt, TILT_DOWN_MS, TILT_DOWN_TARGET, TILT_LIMIT, TILT_UP_MS};
use crate::collisions::{check_collisions, collision_signals, lemma_count_sig_concat};
use crate::events::{count_sig, count_signal, lemma_count_sig_le_len, lemma_count_sig_singleton,
    GameEvent};
use crate::game_state::{handle_died_event, handle_restart_input, restart_signal,
    restart_transition, GameState};
use crate::physics::{abs_val, body_in_bounds, collision_events, detect_events,
    lemma_events_from_len, lemma_mul_bounds, Body, Vec2, GRAVITY_PER_MS, MAX_COORD, MAX_VEL};
use crate::pipes::{move_pipes, pipe_children, pipe_children_spec, pipe_moved_ok, pipe_y_in_range,
    spawn_pipes, PipePair, PIPE_COUNT, PIPE_SPACING_X};
use crate::score::{score_wf, setup_score, Score};
use crate::sounds::{cues_for, cues_spec, AudioCue};
use crate::world::setup_ground;

/// Longest single frame the update loop accepts, milliseconds.
pub const MAX_FRAME_MS: i64 = 1_000;

/// Largest bird coordinate magnitude the update loop accepts, micro-pixels:
/// far enough inside the physics bounds that one frame of motion stays
/// within them.
pub const MAX_BIRD_COORD: i64 = 900_000_000_000;

/// Largest bird velocity magnitude the update loop accepts before this
/// frame's flap, milli-pixels per second.
pub const MAX_BIRD_VEL: i64 = 999_700_000;

/// The whole simulation state.
pub struct Game {
    pub state: GameState,
    pub bird: Bird,
    pub pipes: Vec<PipePair>,
    pub score: Score,
}

/// What one frame hands back to the host: the frame's one-shot signals, in
/// order of production, and the audio cues they map to.
#[derive(Debug)]
pub struct FrameOutput {
    pub signals: Vec<GameEvent>,
    pub cues: Vec<AudioCue>,
}

/// Well-formedness of the whole simulation state.
pub open spec fn game_wf(g: Game) -> bool {
    &&& bird_wf(g.bird)
    &&& score_wf(g.score)
    &&& g.pipes@.len() == PIPE_COUNT
    &&& forall|i: int|
        0 <= i < g.pipes@.len() ==> abs_val((#[trigger] g.pipes@[i]).x as int) <= MAX_COORD / 2
            && abs_val(g.pipes@[i].y as int) <= MAX_COORD / 2
}

/// The child bodies of the pipe pairs from index `i` on.
pub open spec fn pipes_bodies_from(pipes: Seq<PipePair>, i: int) -> Seq<Body>
    decreases pipes.len() - i,
{
    if 0 <= i < pipes.len() {
        pipe_children_spec(pipes[i]) + pipes_bodies_from(pipes, i + 1)
    } else {
        Seq::empty()
    }
}

/// The collision world of one instant: the bird's body if one is attached,
/// the ground and ceiling, then every pipe pair's children.
pub open spec fn world_bodies_spec(bird: Bird, pipes: Seq<PipePair>) -> Seq<Body> {
    (if bird.has_body {
        seq![bird_body_spec(bird)]
    } else {
        Seq::empty()
    }) + seq![crate::world::ground_body(), crate::world::ceiling_body()] + pipes_bodies_from(
        pipes,
        0,
    )
}

/// Builds the collision world of the current instant.
pub fn world_bodies(bird: &Bird, pipes: &Vec<PipePair>) -> (r: Vec<Body>)
    requires
        abs_val(bird.pos.x as int) <= MAX_COORD / 2,
        abs_val(bird.pos.y as int) <= MAX_COORD / 2,
        abs_val(bird.vel.x as int) <= MAX_VEL,
        abs_val(bird.vel.y as int) <= MAX_VEL,
        forall|i: int|
            0 <= i < pipes@.len() ==> abs_val((#[trigger] pipes@[i]).x as int) <= MAX_COORD / 2
                && abs_val(pipes@[i].y as int) <= MAX_COORD / 2,
    ensures
        r@ == world_bodies_spec(*bird, pipes@),
        forall|i: int| 0 <= i < r@.len() ==> body_in_bounds(#[trigger] r@[i]),
        r@.len() == (if bird.has_body {
            1int
        } else {
            0int
        }) + 2 + 3 * pipes@.len(),
{
    let ghost base = (if bird.has_body {
        seq![bird_body_spec(*bird)]
    } else {
        Seq::<Body>::empty()
    }) + seq![crate::world::ground_body(), crate::world::ceiling_body()];
    let mut r: Vec<Body> = Vec::new();
    if bird.has_body {
        r.push(bird_body(bird));
    }
    let walls = setup_ground();
    r.push(walls[0]);
    r.push(walls[1]);
    proof {
        assert(r@ =~= base);
        assert(world_bodies_spec(*bird, pipes@) =~= base + pipes_bodies_from(pipes@, 0));
        assert(forall|k: int| 0 <= k < r@.len() ==> body_in_bounds(#[trigger] r@[k]));
    }
    let n = pipes.len();
    let mut i: usize = 0;
    while i < n
        invariant
            i <= n,
            n == pipes@.len(),
            forall|k: int|
                0 <= k < pipes@.len() ==> abs_val((#[trigger] pipes@[k]).x as int) <= MAX_COORD / 2
                    && abs_val(pipes@[k].y as int) <= MAX_COORD / 2,
            r@ + pipes_bodies_from(pipes@, i as int) == world_bodies_spec(*bird, pipes@),
            r@.len() == base.len() + 3 * i,
            base.len() == (if bird.has_body {
                1int
            } else {
                0int
            }) + 2,
            forall|k: int| 0 <= k < r@.len() ==> body_in_bounds(#[trigger] r@[k]),
        decreases n - i,
    {
        let ghost r_pre = r@;
        let mut children = pipe_children(&pipes[i]);
        r.push(children[0]);
        r.push(children[1]);
        r.push(children[2]);
        proof {
            assert(r@ =~= r_pre + pipe_children_spec(pipes@[i as int]));
            assert(pipes_bodies_from(pipes@, i as int) == pipe_children_spec(pipes@[i as int])
                + pipes_bodies_from(pipes@, i as int + 1));
            assert(r@ + pipes_bodies_from(pipes@, i as int + 1) =~= r_pre + pipes_bodies_from(
                pipes@,
                i as int,
            ));
            assert(forall|k: int|
                0 <= k < 3 ==> body_in_bounds(#[trigger] pipe_children_spec(pipes@[i as int])[k]));
        }
        i = i + 1;
    }
    proof {
        assert(pipes_bodies_from(pipes@, n as int) =~= Seq::<Body>::empty());
        assert(r@ + pipes_bodies_from(pipes@, n as int) =~= r@);
    }
    r
}

/// Whether a press starts play this frame.
pub open spec fn frame_started(g: Game, pressed: bool) -> bool {
    restart_signal(g.state, pressed) == Some(GameEvent::GameStarted)
}

/// Whether a press resets the game this frame.
pub open spec fn frame_reset(g: Game, pressed: bool) -> bool {
    restart_signal(g.state, pressed) == Some(GameEvent::GameReset)
}

/// The state after the restart-input handler, before any collision.
pub open spec fn frame_s1(g: Game, pressed: bool) -> GameState {
    restart_transition(g.state, pressed)
}

/// Whether the bird flaps this frame.
pub open spec fn frame_flap(g: Game, pressed: bool) -> bool {
    pressed && frame_s1(g, pressed) == GameState::Playing
}

/// The signals the input stage emits, in order.
pub open spec fn frame_input_sigs(g: Game, pressed: bool) -> Seq<GameEvent> {
    (match restart_signal(g.state, pressed) {
        Some(s) => seq![s],
        None => Seq::empty(),
    }) + (if frame_flap(g, pressed) {
        seq![GameEvent::Flap]
    } else {
        Seq::empty()
    })
}

/// The bird after the input stage: a reset returns it to its spawn state, a
/// game start attaches its body, and a flap sets its vertical velocity.
pub open spec fn bird_after_input(b: Bird, started: bool, reset: bool, flapped: bool) -> Bird {
    let b0 = if reset {
        initial_bird()
    } else {
        b
    };
    let b1 = if started {
        Bird { has_body: true, ..b0 }
    } else {
        b0
    };
    if flapped {
        Bird { vel: Vec2 { x: b1.vel.x, y: flap_velocity(b1.vel.y as int) as i64 }, ..b1 }
    } else {
        b1
    }
}

/// The bird after its physics frame: with a body attached, gravity and
/// motion; without one, unchanged.
pub open spec fn bird_after_physics(b: Bird, delta_ms: int) -> Bird {
    if b.has_body {
        let vy = b.vel.y - GRAVITY_PER_MS * delta_ms;
        Bird {
            pos: Vec2 { x: (b.pos.x + b.vel.x * delta_ms) as i64, y: (b.pos.y + vy * delta_ms) as i64 },
            vel: Vec2 { x: b.vel.x, y: vy as i64 },
            ..b
        }
    } else {
        b
    }
}

/// The bird after the death stage: a death detaches the body and cancels
/// the tilt animation.
pub open spec fn bird_after_died(b: Bird, died: bool) -> Bird {
    if died {
        Bird { has_body: false, easing: None, ..b }
    } else {
        b
    }
}

/// The bird after the tilt stage: while playing, a rising bird not yet
/// tilting up starts the upward ease and a sinking bird not yet tilting
/// down starts the downward ease, each replacing any animation in flight.
pub open spec fn bird_after_tilt(b: Bird, state: GameState) -> Bird {
    if state == GameState::Playing && b.vel.y > 0 && b.tilt != Tilt::Up {
        Bird {
            tilt: Tilt::Up,
            easing: Some(
                Easing { start: b.rotation, end: TILT_LIMIT, duration: TILT_UP_MS, elapsed: 0 },
            ),
            ..b
        }
    } else if state == GameState::Playing && b.vel.y < 0 && b.tilt != Tilt::Down {
        Bird {
            tilt: Tilt::Down,
            easing: Some(
                Easing {
                    start: b.rotation,
                    end: TILT_DOWN_TARGET,
                    duration: TILT_DOWN_MS,
                    elapsed: 0,
                },
            ),
            ..b
        }
    } else {
        b
    }
}

/// The bird after its animation advances by `delta_ms`.
pub open spec fn bird_after_easing(b: Bird, delta_ms: int) -> Bird {
    match b.easing {
        None => b,
        Some(e) => {
            let el2 = if e.elapsed + delta_ms >= e.duration {
                e.duration as int
            } else {
                e.elapsed + delta_ms
            };
            let adv = Easing { elapsed: el2 as i64, ..e };
            Bird {
                rotation: crate::bird::ease_sample(adv) as i64,
                easing: (if el2 == e.duration {
                    None
                } else {
                    Some(adv)
                }),
                ..b
            }
        },
    }
}

/// The bird as the input stage leaves it this frame.
pub open spec fn frame_bird_mid(g: Game, pressed: bool) -> Bird {
    bird_after_input(
        g.bird,
        frame_started(g, pressed),
        frame_reset(g, pressed),
        frame_flap(g, pressed),
    )
}

/// The collision events of the frame, given the pipes as the frame leaves
/// them: the overlap changes between the collision world before the frame's
/// movement and after it.
pub open spec fn frame_events_spec(
    g: Game,
    pressed: bool,
    delta_ms: int,
    pipes_after: Seq<PipePair>,
) -> Seq<crate::physics::CollisionEvent> {
    collision_events(
        world_bodies_spec(frame_bird_mid(g, pressed), g.pipes@),
        world_bodies_spec(bird_after_physics(frame_bird_mid(g, pressed), delta_ms), pipes_after),
    )
}

/// The collision signals of the frame: its events classified under the
/// frame's play state.  Gated off entirely unless the frame plays.
pub open spec fn frame_collision_sigs(
    g: Game,
    pressed: bool,
    delta_ms: int,
    pipes_after: Seq<PipePair>,
) -> Seq<GameEvent> {
    collision_signals(frame_events_spec(g, pressed, delta_ms, pipes_after), frame_s1(g, pressed))
}

/// Every one-shot signal one frame broadcasts, in production order: the
/// input stage's signals, then the collision stage's.
pub open spec fn frame_signals_spec(
    g: Game,
    pressed: bool,
    delta_ms: int,
    pipes_after: Seq<PipePair>,
) -> Seq<GameEvent> {
    frame_input_sigs(g, pressed) + frame_collision_sigs(g, pressed, delta_ms, pipes_after)
}

impl Game {
    /// A fresh game: waiting, the bird at its spawn state, the initial pipe
    /// row, the score at zero.
    pub fn new() -> (r: Game)
        ensures
            r.state == GameState::Waiting,
            r.bird == initial_bird(),
            r.score.count == 0,
            r.pipes@.len() == PIPE_COUNT,
            forall|i: int|
                0 <= i < r.pipes@.len() ==> (#[trigger] r.pipes@[i]).x == i * PIPE_SPACING_X,
            r.pipes@[0].y == 0,
            forall|i: int|
                0 < i < r.pipes@.len() ==> pipe_y_in_range((#[trigger] r.pipes@[i]).y as int),
            game_wf(r),
    {
        let g = Game {
            state: GameState::Waiting,
            bird: spawn_bird(),
            pipes: spawn_pipes(),
            score: setup_score(),
        };
        g
    }

    /// One simulation step.
    ///
    /// In order: the restart input may start or reset the game; a reset
    /// respawns the bird, the pipes and the score; a press during play
    /// flaps; pipes scroll and the bird falls; the collision worlds before
    /// and after the movement yield the frame's collision events, which the
    /// play state gates into death and scoring signals; a death freezes the
    /// game and detaches the bird's body; the score counts its signals; the
    /// tilt animation reacts to the bird's motion and advances.
    ///
    /// The returned signals are exactly the frame's one-shot broadcasts, in
    /// production order, and determine the new state and score; the cues
    /// are their audio mapping.  All randomness of the frame is visible in
    /// the pipe row it leaves behind.
    pub fn frame(&mut self, pressed: bool, delta_ms: i64) -> (out: FrameOutput)
        requires
            game_wf(*old(self)),
            0 <= delta_ms <= MAX_FRAME_MS,
            abs_val(old(self).bird.pos.x as int) <= MAX_BIRD_COORD,
            abs_val(old(self).bird.pos.y as int) <= MAX_BIRD_COORD,
            abs_val(old(self).bird.vel.x as int) <= MAX_BIRD_VEL,
            abs_val(old(self).bird.vel.y as int) <= MAX_BIRD_VEL,
            old(self).score.count <= u32::MAX - 400,
        ensures
            game_wf(*final(self)),
            out.cues@ == cues_spec(out.signals@),
            out.signals@ == frame_signals_spec(
                *old(self),
                pressed,
                delta_ms as int,
                final(self).pipes@,
            ),
            final(self).state == (if count_sig(out.signals@, GameEvent::Died) > 0 {
                GameState::Dead
            } else {
                frame_s1(*old(self), pressed)
            }),
            final(self).score.count == (if frame_reset(*old(self), pressed) {
                0int
            } else {
                old(self).score.count as int
            }) + count_sig(out.signals@, GameEvent::IncreaseScore),
            final(self).bird == bird_after_easing(
                bird_after_tilt(
                    bird_after_died(
                        bird_after_physics(
                            frame_bird_mid(*old(self), pressed),
                            delta_ms as int,
                        ),
                        count_sig(out.signals@, GameEvent::Died) > 0,
                    ),
                    final(self).state,
                ),
                delta_ms as int,
            ),
            final(self).pipes@.len() == PIPE_COUNT,
            frame_reset(*old(self), pressed) ==> {
                &&& forall|i: int|
                    0 <= i < final(self).pipes@.len() ==> (#[trigger] final(self).pipes@[i]).x == i
                        * PIPE_SPACING_X
                &&& final(self).pipes@[0].y == 0
                &&& forall|i: int|
                    0 < i < final(self).pipes@.len() ==> pipe_y_in_range(
                        (#[trigger] final(self).pipes@[i]).y as int,
                    )
            },
            frame_s1(*old(self), pressed) == GameState::Playing ==> forall|i: int|
                0 <= i < final(self).pipes@.len() ==> pipe_moved_ok(
                    #[trigger] old(self).pipes@[i],
                    final(self).pipes@[i],
                    delta_ms as int,
                ),
            !frame_reset(*old(self), pressed) && frame_s1(*old(self), pressed)
                != GameState::Playing ==> final(self).pipes@ == old(self).pipes@,
    {
        let ghost g0 = *old(self);
        // Input stage: restart handling, its reactions, then the flap.
        let (s1, input_sig) = handle_restart_input(self.state, pressed);
        self.state = s1;
        let started = matches!(input_sig, Some(GameEvent::GameStarted));
        let reset = matches!(input_sig, Some(GameEvent::GameReset));
        let mut signals: Vec<GameEvent> = Vec::new();
        if let Some(sig) = input_sig {
            signals.push(sig);
        }
        if started {
            self.bird.on_game_started();
        }
        if reset {
            self.bird.handle_game_reset();
            crate::pipes::handle_game_reset(&mut self.pipes, true);
            self.score.handle_game_reset(true);
        }
        let flapped = self.bird.bird_input(pressed, s1);
        if flapped {
            signals.push(GameEvent::Flap);
        }
        proof {
            assert(started == frame_started(g0, pressed));
            assert(reset == frame_reset(g0, pressed));
            assert(flapped == frame_flap(g0, pressed));
            assert(self.bird == frame_bird_mid(g0, pressed));
            assert(signals@ =~= frame_input_sigs(g0, pressed));
        }
        let ghost bird_mid = self.bird;
        let ghost pipes_mid = self.pipes@;
        // Movement stage: the collision worlds before and after it.
        let before = world_bodies(&self.bird, &self.pipes);
        move_pipes(&mut self.pipes, delta_ms, s1);
        proof {
            lemma_mul_bounds(
                bird_mid.vel.x as int,
                delta_ms as int,
                1_000_000_000,
                MAX_FRAME_MS as int,
            );
            lemma_mul_bounds(
                bird_mid.vel.y as int - GRAVITY_PER_MS * delta_ms,
                delta_ms as int,
                1_000_600_000,
                MAX_FRAME_MS as int,
            );
        }
        self.bird.physics_step(delta_ms);
        proof {
            assert forall|i: int| 0 <= i < self.pipes@.len() implies abs_val(
                (#[trigger] self.pipes@[i]).x as int,
            ) <= MAX_COORD / 2 && abs_val(self.pipes@[i].y as int) <= MAX_COORD / 2 by {
                if s1 == GameState::Playing {
                    assert(pipe_moved_ok(pipes_mid[i], self.pipes@[i], delta_ms as int));
                } else {
                    assert(self.pipes@[i] == pipes_mid[i]);
                }
            }
        }
        let after = world_bodies(&self.bird, &self.pipes);
        proof {
            assert(self.bird == bird_after_physics(bird_mid, delta_ms as int));
            assert(bird_wf(bird_mid));
            assert(bird_wf(self.bird));
        }
        // Collision stage: events, their classification, death and score.
        let events = detect_events(&before, &after);
        let csigs = check_collisions(&events, s1);
        proof {
            lemma_events_from_len(before@, after@, 0);
            crate::collisions::lemma_collision_signals_len(events@, s1);
            lemma_count_sig_le_len(csigs@, GameEvent::Died);
            lemma_count_sig_le_len(csigs@, GameEvent::IncreaseScore);
            let n = before@.len() as int;
            assert(n <= 18);
            assert(n * n <= 400) by (nonlinear_arith)
                requires
                    0 <= n <= 18,
            ;
            if s1 == GameState::Playing {
                assert(pipes_mid == g0.pipes@);
                assert(before@ == world_bodies_spec(frame_bird_mid(g0, pressed), g0.pipes@));
                assert(csigs@ == frame_collision_sigs(g0, pressed, delta_ms as int, self.pipes@));
            } else {
                assert(csigs@ =~= Seq::<GameEvent>::empty());
                assert(frame_collision_sigs(g0, pressed, delta_ms as int, self.pipes@) =~= Seq::<
                    GameEvent,
                >::empty());
            }
        }
        let died_count = count_signal(&csigs, GameEvent::Died);
        let died = died_count > 0;
        self.state = handle_died_event(s1, died);
        if died {
            self.bird.on_died();
        }
        let inc = count_signal(&csigs, GameEvent::IncreaseScore);
        let ghost score_mid = self.score.count;
        let ghost bird_snap = self.bird;
        let ghost pipes_snap = self.pipes@;
        let ghost state_snap = self.state;
        let mut j: usize = 0;
        while j < inc
            invariant
                j <= inc,
                inc <= 400,
                score_mid + inc <= u32::MAX,
                self.score.count == score_mid + j,
                score_wf(self.score),
                self.bird == bird_snap,
                self.pipes@ == pipes_snap,
                self.state == state_snap,
            decreases inc - j,
        {
            self.score.handle_increase_score();
            j = j + 1;
        }
        // Broadcast the collision signals after the input signals.
        let ghost base = signals@;
        let mut k: usize = 0;
        proof {
            assert(csigs@.take(0) =~= Seq::<GameEvent>::empty());
            assert(signals@ =~= base + csigs@.take(0));
        }
        while k < csigs.len()
            invariant
                k <= csigs@.len(),
                signals@ == base + csigs@.take(k as int),
            decreases csigs@.len() - k,
        {
            signals.push(csigs[k]);
            proof {
                assert(csigs@.take(k as int + 1) =~= csigs@.take(k as int).push(
                    csigs@[k as int],
                ));
                assert(base + csigs@.take(k as int).push(csigs@[k as int]) =~= (base + csigs@.take(
                    k as int,
                )).push(csigs@[k as int]));
            }
            k = k + 1;
        }
        proof {
            assert(csigs@.take(csigs@.len() as int) =~= csigs@);
            assert(signals@ == base + csigs@);
            lemma_input_sigs_counts(g0, pressed, csigs@);
        }
        // Tilt stage, gated on the state the frame settled on.
        let s2 = self.state;
        let ghost bird_pre_tilt = self.bird;
        proof {
            assert(bird_wf(self.bird));
        }
        self.bird.handle_bird_tilt_up(s2);
        self.bird.handle_bird_tilt_down(s2);
        proof {
            assert(self.bird == bird_after_tilt(bird_pre_tilt, s2));
        }
        self.bird.advance_easing(delta_ms);
        let cues = cues_for(&signals);
        FrameOutput { signals, cues }
    }
}

/// While a frame plays, its broadcast carries exactly one death signal per
/// player/world contact start and exactly one scoring signal per completed
/// pass through a pipe gap; a frame that does not play carries neither, so
/// a death signal proves the frame played.
pub proof fn lemma_frame_signal_counts(
    g: Game,
    pressed: bool,
    delta_ms: int,
    pipes_after: Seq<PipePair>,
)
    ensures
        frame_s1(g, pressed) == GameState::Playing ==> count_sig(
            frame_signals_spec(g, pressed, delta_ms, pipes_after),
            GameEvent::Died,
        ) == crate::collisions::count_deadly_starts(
            frame_events_spec(g, pressed, delta_ms, pipes_after),
        ),
        frame_s1(g, pressed) == GameState::Playing ==> count_sig(
            frame_signals_spec(g, pressed, delta_ms, pipes_after),
            GameEvent::IncreaseScore,
        ) == crate::collisions::count_gap_passes(
            frame_events_spec(g, pressed, delta_ms, pipes_after),
        ),
        frame_s1(g, pressed) != GameState::Playing ==> count_sig(
            frame_signals_spec(g, pressed, delta_ms, pipes_after),
            GameEvent::Died,
        ) == 0 && count_sig(
            frame_signals_spec(g, pressed, delta_ms, pipes_after),
            GameEvent::IncreaseScore,
        ) == 0,
{
    let csigs = frame_collision_sigs(g, pressed, delta_ms, pipes_after);
    let events = frame_events_spec(g, pressed, delta_ms, pipes_after);
    let s1 = frame_s1(g, pressed);
    lemma_input_sigs_counts(g, pressed, csigs);
    crate::collisions::lemma_collision_signal_counts(events, s1);
    if s1 != GameState::Playing {
        assert(csigs =~= Seq::<GameEvent>::empty());
        assert(count_sig(csigs, GameEvent::Died) == 0);
        assert(count_sig(csigs, GameEvent::IncreaseScore) == 0);
    }
}

/// Neither the restart-input signals nor a flap is a death or a scoring
/// signal, so counting those over the whole frame's broadcast counts only
/// the collision stage's part.
proof fn lemma_input_sigs_counts(g: Game, pressed: bool, csigs: Seq<GameEvent>)
    ensures
        count_sig(frame_input_sigs(g, pressed) + csigs, GameEvent::Died) == count_sig(
            csigs,
            GameEvent::Died,
        ),
        count_sig(frame_input_sigs(g, pressed) + csigs, GameEvent::IncreaseScore) == count_sig(
            csigs,
            GameEvent::IncreaseScore,
        ),
{
    let in_sigs = frame_input_sigs(g, pressed);
    lemma_count_sig_concat(in_sigs, csigs, GameEvent::Died);
    lemma_count_sig_concat(in_sigs, csigs, GameEvent::IncreaseScore);
    let restart_part = (match restart_signal(g.state, pressed) {
        Some(s) => seq![s],
        None => Seq::<GameEvent>::empty(),
    });
    let flap_part = (if frame_flap(g, pressed) {
        seq![GameEvent::Flap]
    } else {
        Seq::<GameEvent>::empty()
    });
    lemma_count_sig_concat(restart_part, flap_part, GameEvent::Died);
    lemma_count_sig_concat(restart_part, flap_part, GameEvent::IncreaseScore);
    match restart_signal(g.state, pressed) {
        Some(s) => {
            lemma_count_sig_singleton(s, GameEvent::Died);
            lemma_count_sig_singleton(s, GameEvent::IncreaseScore);
        },
        None => {},
    }
    if frame_flap(g, pressed) {
        lemma_count_sig_singleton(GameEvent::Flap, GameEvent::Died);
        lemma_count_sig_singleton(GameEvent::Flap, GameEvent::IncreaseScore);
    }
}

} // verus!
