//! The falling, flapping player entity.
//!
//! The kinematics are stated over fractional time and velocity; here they
//! are held exactly in fixed-point integers. The fall clock `time` counts tenths
//! of a time unit (one physics step adds one tenth), `velocity` counts tenths
//! of a cell per time unit (gravity adds two tenths per step, a flap sets
//! minus twenty), and the per-step displacement `velocity * time + 0.1 *
//! time^2` cells is computed in thousandths of a cell and truncated.

use vstd::prelude::*;

use crate::libs::spec_blend;
use crate::palette::{bird, bird_highlight, spec_bird, spec_bird_highlight, Cor};
use crate::{HIGHLIGHT_DURATION, TIME_LIMIT, VELOCITY_LIMIT};

verus! {

/// The player: world position `x`, vertical cell `y` (never negative),
/// `velocity` and fall clock `time` in the fixed-point units above, and the
/// remaining flap-highlight time in milliseconds.
#[derive(Clone, Copy, Debug, PartialEq, Eq, Structural)]
pub struct Player {
    pub x: i32,
    pub y: i32,
    pub velocity: i32,
    pub time: u32,
    pub highlight_countdown: u32,
}

/// A countdown after `elapsed` milliseconds have passed: it falls to zero
/// rather than below it, and once at zero it stays there untouched.
pub open spec fn decay(countdown: u32, elapsed: u32) -> u32 {
    if elapsed >= countdown {
        0
    } else {
        (countdown - elapsed) as u32
    }
}

/// The vertical cell reached from `y` by the displacement `velocity * time +
/// 0.1 * time^2` (in the fixed-point units of `Player`), truncated to a whole
/// cell and clamped to the screen's integer range: never below 0.
pub open spec fn fall_position(y: int, velocity: int, time: int) -> int {
    let milli = 1000 * y + 10 * velocity * time + time * time;
    if milli <= 0 {
        0
    } else if milli / 1000 > i32::MAX {
        i32::MAX as int
    } else {
        milli / 1000
    }
}

/// The player after one physics step: the fall clock and the velocity grow by
/// their fixed increments, the world position advances by exactly one cell,
/// and the vertical position follows the kinematic displacement.
pub open spec fn spec_gravity_and_move(p: Player) -> Player {
    Player {
        x: (p.x + 1) as i32,
        y: fall_position(p.y as int, p.velocity + 2, p.time + 1) as i32,
        velocity: (p.velocity + 2) as i32,
        time: (p.time + 1) as u32,
        highlight_countdown: p.highlight_countdown,
    }
}

/// The player right after a flap: the fixed upward impulse, a reset fall
/// clock, and a re-armed highlight.
pub open spec fn spec_flap(p: Player) -> Player {
    Player { velocity: -20i32, time: 0u32, highlight_countdown: HIGHLIGHT_DURATION, ..p }
}

impl Player {
    /// Bounds under which one physics step stays within machine arithmetic.
    pub open spec fn wf(self) -> bool {
        &&& 0 <= self.y
        &&& self.time <= TIME_LIMIT
        &&& -20 <= self.velocity <= VELOCITY_LIMIT
        &&& self.highlight_countdown <= HIGHLIGHT_DURATION
    }

    /// A player at rest at `(x, y)`, drawn fully highlighted.
    pub fn new(x: i32, y: i32) -> (p: Player)
        requires
            0 <= y,
        ensures
            p == (Player {
                x,
                y,
                velocity: 0,
                time: 0,
                highlight_countdown: HIGHLIGHT_DURATION,
            }),
            p.wf(),
    {
        Player { x, y, velocity: 0, time: 0, highlight_countdown: HIGHLIGHT_DURATION }
    }

    /// One physics step: gravity accelerates the fall, the kinematic
    /// displacement since the last flap moves `y`, the world scrolls by one
    /// cell, and `y` never comes out negative.
    pub fn gravity_and_move(&mut self)
        requires
            old(self).wf(),
            old(self).time < TIME_LIMIT,
            old(self).velocity + 2 <= VELOCITY_LIMIT,
            old(self).x < i32::MAX,
        ensures
            *final(self) == spec_gravity_and_move(*old(self)),
            final(self).y >= 0,
            final(self).wf(),
    {
        self.time = self.time + 1;
        self.velocity = self.velocity + 2;
        let t: i64 = self.time as i64;
        let v: i64 = self.velocity as i64;
        proof {
            assert(-36_000_000_000 <= 10 * (v as int) * (t as int) <= 800_000_000_000_000_000)
                by (nonlinear_arith)
                requires
                    -18 <= v <= 400_000_000,
                    1 <= t <= 200_000_000,
            ;
            assert(0 <= (t as int) * (t as int) <= 40_000_000_000_000_000) by (nonlinear_arith)
                requires
                    1 <= t <= 200_000_000,
            ;
        }
        let milli: i64 = 1000 * (self.y as i64) + 10 * v * t + t * t;
        if milli <= 0 {
            self.y = 0;
        } else {
            let cells: u64 = (milli as u64) / 1000;
            if cells > i32::MAX as u64 {
                self.y = i32::MAX;
            } else {
                self.y = cells as i32;
            }
        }
        self.x = self.x + 1;
    }

    /// A flap: the fixed upward impulse `-20` tenths, a fall clock reset to
    /// zero, and the highlight re-armed to its full duration, whatever the
    /// prior state.
    pub fn flap(&mut self)
        ensures
            *final(self) == spec_flap(*old(self)),
            final(self).velocity == -20,
            final(self).time == 0,
            final(self).highlight_countdown == HIGHLIGHT_DURATION,
            final(self).x == old(self).x,
            final(self).y == old(self).y,
            old(self).wf() ==> final(self).wf(),
    {
        self.highlight_countdown = HIGHLIGHT_DURATION;
        self.velocity = -20;
        self.time = 0;
    }

    /// The color the player is drawn in for a frame that lasted
    /// `frame_time_ms`: while the flap highlight is running it counts down
    /// and tints the player toward the highlight color in proportion to the
    /// time it has left; afterwards the base color stands.
    pub fn render_color(&mut self, frame_time_ms: u32) -> (c: Cor)
        ensures
            final(self).highlight_countdown == decay(old(self).highlight_countdown, frame_time_ms),
            c == spec_blend(
                spec_bird(),
                spec_bird_highlight(),
                final(self).highlight_countdown as int,
                HIGHLIGHT_DURATION as int,
            ),
            final(self).x == old(self).x,
            final(self).y == old(self).y,
            final(self).velocity == old(self).velocity,
            final(self).time == old(self).time,
            old(self).wf() ==> final(self).wf(),
    {
        if self.highlight_countdown > 0 {
            if frame_time_ms >= self.highlight_countdown {
                self.highlight_countdown = 0;
            } else {
                self.highlight_countdown = self.highlight_countdown - frame_time_ms;
            }
        }
        crate::libs::blend_colors(
            bird(),
            bird_highlight(),
            self.highlight_countdown,
            HIGHLIGHT_DURATION,
        )
    }
}

} // verus!
