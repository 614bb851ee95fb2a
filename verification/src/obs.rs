//! A single vertical gap-wall obstacle.

use vstd::prelude::*;

use crate::plr::Player;
use crate::{POSITION_OFFSET, SCREEN_HEIGHT};

verus! {

/// One obstacle: the world column `x` of the wall, the center `gap_y` and
/// full height `size` of its opening, and whether the player has already
/// passed it (which gates scoring and recycling).
#[derive(Clone, Copy, Debug, PartialEq, Eq, Structural)]
pub struct Obstacle {
    pub x: i32,
    pub gap_y: i32,
    pub size: i32,
    pub passed: bool,
}

/// The gap height granted at a given score: it narrows as the score rises,
/// with a floor of two cells (so the half-size never drops below one).
pub open spec fn gap_size(score: int) -> int {
    if 20 - score >= 2 {
        20 - score
    } else {
        2
    }
}

/// Whether the player collides with the wall: only at the obstacle's exact
/// column, and only strictly above or strictly below the gap band.
pub open spec fn spec_hit(o: Obstacle, p: Player) -> bool {
    let half_size = o.size / 2;
    p.x == o.x && (p.y < o.gap_y - half_size || p.y > o.gap_y + half_size)
}

/// Relies on bracket_lib's `RandomNumberGenerator::new` (a freshly seeded
/// generator) and `range`, which draws a value inclusive of `min` and
/// exclusive of `max`, and panics on an empty range.
#[verifier::external_body]
fn random_range(min: i32, max: i32) -> (r: i32)
    requires
        min < max,
    ensures
        min <= r < max,
{
    bracket_lib::prelude::RandomNumberGenerator::new().range(min, max)
}

impl Obstacle {
    /// The gap center stays a safe band away from both screen edges, and the
    /// gap never narrows below two cells.
    pub open spec fn wf(self) -> bool {
        &&& 10 <= self.gap_y < SCREEN_HEIGHT - 10
        &&& 2 <= self.size <= 20
    }

    /// Half the gap height; the band reaches from `gap_y - gap_half_size()`
    /// to `gap_y + gap_half_size()`.
    pub open spec fn gap_half_size(self) -> int {
        self.size / 2
    }

    /// A fresh, unpassed obstacle at column `x`: its gap center is drawn
    /// uniformly from the safe vertical band, and its gap height follows the
    /// score at creation, never below two cells.
    pub fn new(x: i32, score: i32) -> (o: Obstacle)
        requires
            0 <= score,
        ensures
            o.x == x,
            o.size == gap_size(score as int),
            o.gap_half_size() >= 1,
            !o.passed,
            o.wf(),
    {
        let gap_y = random_range(10, SCREEN_HEIGHT - 10);
        let size = if score <= 18 {
            20 - score
        } else {
            2
        };
        Obstacle { x, gap_y, size, passed: false }
    }

    /// The screen column where this obstacle stands when the player's world
    /// position is `player_x`.
    pub fn screen_x(&self, player_x: i32) -> (sx: i32)
        requires
            i32::MIN <= self.x - player_x <= i32::MAX,
            i32::MIN <= self.x - player_x + POSITION_OFFSET <= i32::MAX,
        ensures
            sx == self.x - player_x + POSITION_OFFSET,
    {
        self.x - player_x + POSITION_OFFSET
    }

    /// The vertical cells of the wall, from the top of the screen down to the
    /// gap band and from below the gap band down to the bottom: everything of
    /// the column except the open gap.
    pub fn wall_ys(&self) -> (ys: Vec<i32>)
        requires
            self.wf(),
        ensures
            ys@.len() == (self.gap_y - self.gap_half_size()) + (SCREEN_HEIGHT - (self.gap_y
                + self.gap_half_size())),
            forall|i: int|
                0 <= i < self.gap_y - self.gap_half_size() ==> #[trigger] ys@[i] == i,
            forall|i: int|
                self.gap_y - self.gap_half_size() <= i < ys@.len() ==> #[trigger] ys@[i] == self.gap_y
                    + self.gap_half_size() + (i - (self.gap_y - self.gap_half_size())),
    {
        let half_size = (self.size as u32 / 2) as i32;
        let gap_top = self.gap_y - half_size;
        let gap_bottom = self.gap_y + half_size;
        let mut ys: Vec<i32> = Vec::new();
        let mut y: i32 = 0;
        while y < gap_top
            invariant
                0 <= y <= gap_top,
                gap_top == self.gap_y - self.gap_half_size(),
                ys@.len() == y,
                forall|i: int| 0 <= i < y ==> #[trigger] ys@[i] == i,
            decreases gap_top - y,
        {
            ys.push(y);
            y = y + 1;
        }
        let mut y2: i32 = gap_bottom;
        while y2 < SCREEN_HEIGHT
            invariant
                gap_bottom <= y2 <= SCREEN_HEIGHT || (gap_bottom > SCREEN_HEIGHT && y2
                    == gap_bottom),
                gap_top == self.gap_y - self.gap_half_size(),
                gap_bottom == self.gap_y + self.gap_half_size(),
                0 <= gap_top,
                ys@.len() == gap_top + (y2 - gap_bottom),
                forall|i: int| 0 <= i < gap_top ==> #[trigger] ys@[i] == i,
                forall|i: int|
                    gap_top <= i < ys@.len() ==> #[trigger] ys@[i] == gap_bottom + (i - gap_top),
            decreases SCREEN_HEIGHT - y2,
        {
            ys.push(y2);
            y2 = y2 + 1;
        }
        ys
    }

    /// Collision test: true exactly when the player stands at this obstacle's
    /// column with its vertical position strictly outside the gap band.
    pub fn hit_obstacle(&self, player: &Player) -> (hit: bool)
        requires
            self.wf(),
        ensures
            hit == spec_hit(*self, *player),
    {
        let half_size = (self.size as u32 / 2) as i32;
        let does_x_match = player.x == self.x;
        let player_above_gap = player.y < self.gap_y - half_size;
        let player_below_gap = player.y > self.gap_y + half_size;
        does_x_match && (player_above_gap || player_below_gap)
    }
}

} // verus!
