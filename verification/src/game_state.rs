//! The process-wide game phase and its transition rules.

use vstd::prelude::*;

verus! {

use crate::events::GameEvent;

/// The single game phase.  Transitions are strictly cyclic:
/// `Waiting -> Playing -> Dead -> Waiting`, each step triggered by exactly
/// one event kind (a restart press, a death, a restart press again).
#[derive(Clone, Copy, Debug, PartialEq, Eq, Structural)]
pub enum GameState {
    /// Initial phase: the bird has no physics body and nothing scrolls.
    Waiting,
    /// Active play: the bird falls, pipes scroll, collisions are evaluated.
    Playing,
    /// The bird collided with the world; everything waits for a restart.
    Dead,
}

/// The state that follows `s` on the cycle `Waiting -> Playing -> Dead`.
pub open spec fn cycle_next(s: GameState) -> GameState {
    match s {
        GameState::Waiting => GameState::Playing,
        GameState::Playing => GameState::Dead,
        GameState::Dead => GameState::Waiting,
    }
}

/// The state after the restart-input handler sees `pressed`.
pub open spec fn restart_transition(s: GameState, pressed: bool) -> GameState {
    if pressed {
        match s {
            GameState::Waiting => GameState::Playing,
            GameState::Playing => GameState::Playing,
            GameState::Dead => GameState::Waiting,
        }
    } else {
        s
    }
}

/// The signal the restart-input handler emits, if any.
pub open spec fn restart_signal(s: GameState, pressed: bool) -> Option<GameEvent> {
    if pressed {
        match s {
            GameState::Waiting => Some(GameEvent::GameStarted),
            GameState::Playing => None,
            GameState::Dead => Some(GameEvent::GameReset),
        }
    } else {
        None
    }
}

/// Restart-input handler.  On a press: leaves the waiting state and announces
/// that play started, ignores the press during play, and returns from the
/// dead state to the waiting state announcing a reset.
pub fn handle_restart_input(state: GameState, pressed: bool) -> (r: (GameState, Option<GameEvent>))
    ensures
        r.0 == restart_transition(state, pressed),
        r.1 == restart_signal(state, pressed),
{
    if pressed {
        match state {
            GameState::Waiting => (GameState::Playing, Some(GameEvent::GameStarted)),
            GameState::Playing => (GameState::Playing, None),
            GameState::Dead => (GameState::Waiting, Some(GameEvent::GameReset)),
        }
    } else {
        (state, None)
    }
}

/// Death handler: a died signal unconditionally moves the game to the dead
/// state; without one the state is untouched.
pub fn handle_died_event(state: GameState, died: bool) -> (r: GameState)
    ensures
        died ==> r == GameState::Dead,
        !died ==> r == state,
{
    if died {
        GameState::Dead
    } else {
        state
    }
}

/// Whether systems gated on active play (movement, death detection, tilt
/// animation) should run.
pub fn run_if_playing(state: GameState) -> (r: bool)
    ensures
        r == (state == GameState::Playing),
{
    match state {
        GameState::Playing => true,
        GameState::Waiting => false,
        GameState::Dead => false,
    }
}

/// The state after a whole sequence of restart presses has been handled.
pub open spec fn run_restarts(s: GameState, presses: Seq<bool>) -> GameState
    decreases presses.len(),
{
    if presses.len() == 0 {
        s
    } else {
        run_restarts(restart_transition(s, presses[0]), presses.skip(1))
    }
}

/// Splitting a press sequence after its first element splits the run.
pub proof fn lemma_run_restarts_step(s: GameState, presses: Seq<bool>, i: int)
    requires
        0 <= i < presses.len(),
    ensures
        run_restarts(s, presses.take(i + 1))
            == restart_transition(run_restarts(s, presses.take(i)), presses[i]),
    decreases i,
{
    let pre = presses.take(i);
    let pre1 = presses.take(i + 1);
    let s1 = restart_transition(s, presses[0]);
    assert(pre1.len() == i + 1);
    assert(pre1[0] == presses[0]);
    assert(run_restarts(s, pre1) == run_restarts(s1, pre1.skip(1)));
    if i == 0 {
        assert(pre1.skip(1) =~= pre);
        assert(pre.len() == 0);
        assert(run_restarts(s1, pre) == s1);
        assert(run_restarts(s, pre) == s);
    } else {
        let tail = presses.skip(1);
        lemma_run_restarts_step(s1, tail, i - 1);
        assert(tail[i - 1] == presses[i]);
        assert(pre1.skip(1) =~= tail.take(i - 1 + 1));
        assert(pre.skip(1) =~= tail.take(i - 1));
        assert(pre[0] == presses[0]);
        assert(run_restarts(s, pre) == run_restarts(s1, pre.skip(1)));
    }
}

/// For every sequence of restart presses, the game state only ever steps
/// along the cycle `Waiting -> Playing -> Dead -> Waiting`, and a press made
/// while playing changes nothing.
pub proof fn lemma_restart_presses_follow_cycle(s: GameState, presses: Seq<bool>)
    ensures
        forall|i: int|
            0 <= i < presses.len() ==> #[trigger] run_restarts(s, presses.take(i + 1))
                == run_restarts(s, presses.take(i))
                || run_restarts(s, presses.take(i + 1))
                    == cycle_next(run_restarts(s, presses.take(i))),
        forall|i: int|
            0 <= i < presses.len() && run_restarts(s, presses.take(i)) == GameState::Playing
                ==> #[trigger] run_restarts(s, presses.take(i + 1)) == GameState::Playing,
{
    assert forall|i: int| 0 <= i < presses.len() implies {
        &&& #[trigger] run_restarts(s, presses.take(i + 1)) == run_restarts(s, presses.take(i))
            || run_restarts(s, presses.take(i + 1))
                == cycle_next(run_restarts(s, presses.take(i)))
        &&& run_restarts(s, presses.take(i)) == GameState::Playing
            ==> run_restarts(s, presses.take(i + 1)) == GameState::Playing
    } by {
        lemma_run_restarts_step(s, presses, i);
    }
}

/// Every transition either of the two state handlers can make follows the
/// cycle `Waiting -> Playing -> Dead -> Waiting` or stays put.
pub proof fn lemma_handlers_follow_cycle(s: GameState, pressed: bool)
    ensures
        restart_transition(s, pressed) == s || restart_transition(s, pressed) == cycle_next(s),
        s == GameState::Playing ==> restart_transition(s, pressed) == s,
        GameState::Dead == cycle_next(GameState::Playing),
{
}

} // verus!
