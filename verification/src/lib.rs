//! Core of a side-scrolling reflex game: a falling player is steered through a
//! stream of gapped obstacles by timed flap impulses. This crate holds the
//! verified simulation: player kinematics, obstacle generation and recycling,
//! collision tests, scoring, the three-mode state machine, and the decision
//! logic of the persisted high score. Drawing and file handling are left to
//! the host program, which feeds the simulation one tick per frame.

use vstd::prelude::*;

pub mod libs;
pub mod obs;
pub mod palette;
pub mod plr;
pub mod sc;
pub mod ste;

verus! {

/// Width of the visible play field, in cells.
pub const SCREEN_WIDTH: i32 = 80;

/// Height of the visible play field, in cells.
pub const SCREEN_HEIGHT: i32 = 50;

/// Milliseconds that must accumulate before one physics step runs.
pub const FRAME_DURATION: u32 = 50;

/// Fixed horizontal screen column at which the player is drawn.
pub const POSITION_OFFSET: i32 = 5;

/// Horizontal world distance between consecutive obstacles, in cells.
pub const OBSTACLE_GAP: i32 = 30;

/// Length in milliseconds of the flap and score highlight effects.
pub const HIGHLIGHT_DURATION: u32 = 500;

/// Number of obstacles kept alive: one per obstacle spacing across a screen
/// width, plus one (`SCREEN_WIDTH / OBSTACLE_GAP + 1`).
pub const QUEUE_LEN: i32 = 3;

/// Bound on the player's world position, so that every arithmetic step of a
/// run of that many physics ticks stays inside the machine integers.
pub const X_LIMIT: i32 = 100_000_000;

/// Bound on the player's fall clock under which the kinematic displacement
/// fits the intermediate 64-bit arithmetic.
pub const TIME_LIMIT: u32 = 200_000_000;

/// Bound on the player's velocity under which the kinematic displacement
/// fits the intermediate 64-bit arithmetic.
pub const VELOCITY_LIMIT: i32 = 400_000_000;

/// Largest elapsed-time value, in milliseconds, accepted for a single frame.
pub const FRAME_MS_LIMIT: u32 = 1_000_000;

} // verus!
