//! Core logic of a flap-and-dodge arcade game.
//!
//! A player-controlled bird flaps against gravity and is carried through a
//! stream of scrolling pipe gaps.  The library models the whole simulation
//! over plain integers: lengths and positions are in micro-pixels, times in
//! milliseconds, velocities in milli-pixels per second and angles in
//! milli-radians.  Rendering, audio playback and window handling are left to
//! the host program; the library computes states, one-shot signals and audio
//! cues for it.

use vstd::prelude::*;

pub mod bird;
pub mod collisions;
pub mod events;
pub mod game;
pub mod game_state;
pub mod physics;
pub mod pipes;
pub mod score;
pub mod sounds;
pub mod world;

verus! {

/// Window width in micro-pixels (1200 pixels).
pub const WIN_WIDTH: i64 = 1_200_000_000;

/// Window height in micro-pixels (600 pixels).
pub const WIN_HEIGHT: i64 = 600_000_000;

} // verus!
