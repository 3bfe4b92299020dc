//! Collision response: classifies raw collision events into game signals.
//!
//! While playing, a player body starting to overlap a world body means
//! death, and a player body ceasing to overlap a pipe-gap sensor means the
//! bird passed fully through the gap and scores.  Outside active play no
//! collision event yields any signal.

use vstd::prelude::*;

verus! {

use crate::events::{count_sig, GameEvent};
use crate::game_state::GameState;
use crate::physics::{CollisionEvent, CollisionLayers, Layer};

/// Whether the two sides are a player body and a world body, in either
/// order.
pub open spec fn player_world_pair(a: CollisionLayers, b: CollisionLayers) -> bool {
    ||| (a.spec_has_group(Layer::Player) && b.spec_has_group(Layer::World))
    ||| (b.spec_has_group(Layer::Player) && a.spec_has_group(Layer::World))
}

/// Whether the two sides are a player body and a pipe-gap sensor, in either
/// order.
pub open spec fn player_gap_pair(a: CollisionLayers, b: CollisionLayers) -> bool {
    ||| (a.spec_has_group(Layer::Player) && b.spec_has_group(Layer::PipeGap))
    ||| (b.spec_has_group(Layer::Player) && a.spec_has_group(Layer::PipeGap))
}

/// The signal a single collision event yields during play, if any.
pub open spec fn event_signal(e: CollisionEvent) -> Option<GameEvent> {
    match e {
        CollisionEvent::Started(a, b) => if player_world_pair(a, b) {
            Some(GameEvent::Died)
        } else {
            None
        },
        CollisionEvent::Stopped(a, b) => if player_gap_pair(a, b) {
            Some(GameEvent::IncreaseScore)
        } else {
            None
        },
    }
}

/// The signals a whole event list yields in the given state: event by event
/// in order while playing, none at all otherwise.
pub open spec fn collision_signals(events: Seq<CollisionEvent>, state: GameState) -> Seq<GameEvent>
    decreases events.len(),
{
    if state != GameState::Playing || events.len() == 0 {
        Seq::empty()
    } else {
        (match event_signal(events[0]) {
            Some(s) => seq![s],
            None => Seq::empty(),
        }) + collision_signals(events.skip(1), state)
    }
}

/// Classifies the frame's collision events into death and scoring signals,
/// suppressed entirely unless the game is playing.
pub fn check_collisions(events: &Vec<CollisionEvent>, state: GameState) -> (r: Vec<GameEvent>)
    ensures
        r@ == collision_signals(events@, state),
{
    let mut out: Vec<GameEvent> = Vec::new();
    if !crate::game_state::run_if_playing(state) {
        return out;
    }
    let mut i: usize = 0;
    proof {
        assert(events@.skip(0) =~= events@);
        assert(out@ + collision_signals(events@, state) =~= collision_signals(events@, state));
    }
    while i < events.len()
        invariant
            state == GameState::Playing,
            i <= events@.len(),
            out@ + collision_signals(events@.skip(i as int), state) == collision_signals(
                events@,
                state,
            ),
        decreases events@.len() - i,
    {
        let ghost out_pre = out@;
        let ghost rest = events@.skip(i as int);
        match events[i] {
            CollisionEvent::Started(a, b) => {
                if (a.contains_group(Layer::Player) && b.contains_group(Layer::World)) || (
                b.contains_group(Layer::Player) && a.contains_group(Layer::World)) {
                    out.push(GameEvent::Died);
                }
            },
            CollisionEvent::Stopped(a, b) => {
                if (a.contains_group(Layer::Player) && b.contains_group(Layer::PipeGap)) || (
                b.contains_group(Layer::Player) && a.contains_group(Layer::PipeGap)) {
                    out.push(GameEvent::IncreaseScore);
                }
            },
        }
        proof {
            assert(rest[0] == events@[i as int]);
            assert(rest.skip(1) =~= events@.skip(i as int + 1));
            assert(collision_signals(rest, state) == (match event_signal(rest[0]) {
                Some(s) => seq![s],
                None => Seq::<GameEvent>::empty(),
            }) + collision_signals(rest.skip(1), state));
            assert(out@ =~= out_pre + (match event_signal(rest[0]) {
                Some(s) => seq![s],
                None => Seq::<GameEvent>::empty(),
            }));
            assert(out@ + collision_signals(events@.skip(i as int + 1), state) =~= out_pre
                + collision_signals(rest, state));
        }
        i = i + 1;
    }
    proof {
        assert(events@.skip(events@.len() as int) =~= Seq::<CollisionEvent>::empty());
        assert(out@ + collision_signals(events@.skip(events@.len() as int), state) =~= out@);
    }
    out
}

/// How many of the frame's events are player/world contact starts.
pub open spec fn count_deadly_starts(events: Seq<CollisionEvent>) -> nat
    decreases events.len(),
{
    if events.len() == 0 {
        0
    } else {
        (if event_signal(events[0]) == Some(GameEvent::Died) {
            1nat
        } else {
            0nat
        }) + count_deadly_starts(events.skip(1))
    }
}

/// How many of the frame's events are player/pipe-gap overlap stops.
pub open spec fn count_gap_passes(events: Seq<CollisionEvent>) -> nat
    decreases events.len(),
{
    if events.len() == 0 {
        0
    } else {
        (if event_signal(events[0]) == Some(GameEvent::IncreaseScore) {
            1nat
        } else {
            0nat
        }) + count_gap_passes(events.skip(1))
    }
}

/// While playing, every player/world contact start yields exactly one death
/// signal and every completed pass through a pipe gap yields exactly one
/// scoring signal; outside active play no collision yields any signal.
pub proof fn lemma_collision_signal_counts(events: Seq<CollisionEvent>, state: GameState)
    ensures
        state == GameState::Playing ==> count_sig(collision_signals(events, state), GameEvent::Died)
            == count_deadly_starts(events),
        state == GameState::Playing ==> count_sig(
            collision_signals(events, state),
            GameEvent::IncreaseScore,
        ) == count_gap_passes(events),
        state != GameState::Playing ==> collision_signals(events, state) == Seq::<
            GameEvent,
        >::empty(),
    decreases events.len(),
{
    if state == GameState::Playing && events.len() > 0 {
        lemma_collision_signal_counts(events.skip(1), state);
        let head = match event_signal(events[0]) {
            Some(s) => seq![s],
            None => Seq::<GameEvent>::empty(),
        };
        let tail = collision_signals(events.skip(1), state);
        assert(collision_signals(events, state) == head + tail);
        lemma_count_sig_concat(head, tail, GameEvent::Died);
        lemma_count_sig_concat(head, tail, GameEvent::IncreaseScore);
        match event_signal(events[0]) {
            Some(s) => {
                assert(head.len() == 1 && head[0] == s);
                assert(head.skip(1).len() == 0);
                assert(count_sig(head.skip(1), GameEvent::Died) == 0);
                assert(count_sig(head.skip(1), GameEvent::IncreaseScore) == 0);
                assert(count_sig(head, GameEvent::Died) == (if s == GameEvent::Died {
                    1nat
                } else {
                    0nat
                }));
                assert(count_sig(head, GameEvent::IncreaseScore) == (
                if s == GameEvent::IncreaseScore {
                    1nat
                } else {
                    0nat
                }));
            },
            None => {
                assert(head.len() == 0);
            },
        }
        assert(count_deadly_starts(events) == (if event_signal(events[0]) == Some(GameEvent::Died) {
            1nat
        } else {
            0nat
        }) + count_deadly_starts(events.skip(1)));
        assert(count_gap_passes(events) == (if event_signal(events[0]) == Some(
            GameEvent::IncreaseScore,
        ) {
            1nat
        } else {
            0nat
        }) + count_gap_passes(events.skip(1)));
    }
}

/// Each collision event yields at most one signal.
pub proof fn lemma_collision_signals_len(events: Seq<CollisionEvent>, state: GameState)
    ensures
        collision_signals(events, state).len() <= events.len(),
    decreases events.len(),
{
    if state == GameState::Playing && events.len() > 0 {
        lemma_collision_signals_len(events.skip(1), state);
    }
}

/// Counting a signal distributes over concatenation.
pub proof fn lemma_count_sig_concat(a: Seq<GameEvent>, b: Seq<GameEvent>, e: GameEvent)
    ensures
        count_sig(a + b, e) == count_sig(a, e) + count_sig(b, e),
    decreases a.len(),
{
    if a.len() == 0 {
        assert(a + b =~= b);
    } else {
        lemma_count_sig_concat(a.skip(1), b, e);
        assert((a + b).skip(1) =~= a.skip(1) + b);
        assert((a + b)[0] == a[0]);
    }
}

} // verus!
