//! Sound triggering: maps the frame's signals to abstract audio cues.
//!
//! The host program resolves each cue to a clip and plays it
//! fire-and-forget; the core never waits for playback.

use vstd::prelude::*;

verus! {

use crate::events::{count_sig, count_signal, GameEvent};

/// An abstract audio cue.
#[derive(Clone, Copy, Debug, PartialEq, Eq, Structural)]
pub enum AudioCue {
    /// Played on a game reset.
    Hit,
    /// Played on a flap.
    Wing,
    /// Played on a scored point.
    Point,
}

/// The cue a single signal maps to, if any.
pub open spec fn cue_for_spec(e: GameEvent) -> Option<AudioCue> {
    match e {
        GameEvent::GameReset => Some(AudioCue::Hit),
        GameEvent::Flap => Some(AudioCue::Wing),
        GameEvent::IncreaseScore => Some(AudioCue::Point),
        GameEvent::Died => None,
        GameEvent::GameStarted => None,
    }
}

/// Maps one signal to its cue.
pub fn cue_for(e: GameEvent) -> (r: Option<AudioCue>)
    ensures
        r == cue_for_spec(e),
{
    match e {
        GameEvent::GameReset => Some(AudioCue::Hit),
        GameEvent::Flap => Some(AudioCue::Wing),
        GameEvent::IncreaseScore => Some(AudioCue::Point),
        GameEvent::Died => None,
        GameEvent::GameStarted => None,
    }
}

/// The cues one frame's broadcast triggers.  Each clip plays at most once
/// per frame, however many of its signals arrived, in the fixed order hit,
/// wing, point.
pub open spec fn cues_spec(sigs: Seq<GameEvent>) -> Seq<AudioCue> {
    (if count_sig(sigs, GameEvent::GameReset) > 0 {
        seq![AudioCue::Hit]
    } else {
        Seq::empty()
    }) + (if count_sig(sigs, GameEvent::Flap) > 0 {
        seq![AudioCue::Wing]
    } else {
        Seq::empty()
    }) + (if count_sig(sigs, GameEvent::IncreaseScore) > 0 {
        seq![AudioCue::Point]
    } else {
        Seq::empty()
    })
}

/// Maps the frame's signals to the cues to play this frame: one per clip
/// whose signal arrived at all.
pub fn cues_for(sigs: &Vec<GameEvent>) -> (r: Vec<AudioCue>)
    ensures
        r@ == cues_spec(sigs@),
{
    let mut out: Vec<AudioCue> = Vec::new();
    if count_signal(sigs, GameEvent::GameReset) > 0 {
        out.push(AudioCue::Hit);
    }
    if count_signal(sigs, GameEvent::Flap) > 0 {
        out.push(AudioCue::Wing);
    }
    if count_signal(sigs, GameEvent::IncreaseScore) > 0 {
        out.push(AudioCue::Point);
    }
    proof {
        assert(out@ =~= cues_spec(sigs@));
    }
    out
}

} // verus!
