//! One-shot signals broadcast within a single frame.

use vstd::prelude::*;

verus! {

/// A frame-scoped signal.  Signals are produced and consumed within one
/// simulation step and never persist into the next frame.
#[derive(Clone, Copy, Debug, PartialEq, Eq, Structural)]
pub enum GameEvent {
    /// The bird received an upward impulse.
    Flap,
    /// The bird passed fully through a pipe gap.
    IncreaseScore,
    /// The bird hit a solid world body while playing.
    Died,
    /// The game returned from the dead state to the waiting state.
    GameReset,
    /// The game left the waiting state and play began.
    GameStarted,
}

/// How often `e` occurs in `sigs`.
pub open spec fn count_sig(sigs: Seq<GameEvent>, e: GameEvent) -> nat
    decreases sigs.len(),
{
    if sigs.len() == 0 {
        0
    } else {
        (if sigs[0] == e {
            1nat
        } else {
            0nat
        }) + count_sig(sigs.skip(1), e)
    }
}

/// Counting over a one-signal sequence.
pub proof fn lemma_count_sig_singleton(x: GameEvent, e: GameEvent)
    ensures
        count_sig(seq![x], e) == (if x == e {
            1nat
        } else {
            0nat
        }),
{
    assert(seq![x].skip(1) =~= Seq::<GameEvent>::empty());
    assert(count_sig(seq![x].skip(1), e) == 0);
}

/// The count never exceeds the length.
pub proof fn lemma_count_sig_le_len(sigs: Seq<GameEvent>, e: GameEvent)
    ensures
        count_sig(sigs, e) <= sigs.len(),
    decreases sigs.len(),
{
    if sigs.len() > 0 {
        lemma_count_sig_le_len(sigs.skip(1), e);
    }
}

/// Counts how often the signal `e` occurs in `sigs`.
pub fn count_signal(sigs: &Vec<GameEvent>, e: GameEvent) -> (n: usize)
    ensures
        n == count_sig(sigs@, e),
{
    proof {
        lemma_count_sig_le_len(sigs@, e);
    }
    let mut n: usize = 0;
    let mut i: usize = 0;
    proof {
        assert(sigs@.skip(0) =~= sigs@);
    }
    while i < sigs.len()
        invariant
            i <= sigs@.len(),
            n <= i,
            n + count_sig(sigs@.skip(i as int), e) == count_sig(sigs@, e),
        decreases sigs@.len() - i,
    {
        proof {
            assert(sigs@.skip(i as int)[0] == sigs@[i as int]);
            assert(sigs@.skip(i as int).skip(1) =~= sigs@.skip(i as int + 1));
            lemma_count_sig_le_len(sigs@, e);
        }
        if sigs[i] == e {
            n = n + 1;
        }
        i = i + 1;
    }
    proof {
        assert(sigs@.skip(sigs@.len() as int) =~= Seq::<GameEvent>::empty());
    }
    n
}

} // verus!
