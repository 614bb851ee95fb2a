//! The fixed colors of the game, as plain RGB triples.

use vstd::prelude::*;

verus! {

/// An RGB color, one byte per channel.
#[derive(Clone, Copy, Debug, PartialEq, Eq, Structural)]
pub struct Cor {
    pub r: u8,
    pub g: u8,
    pub b: u8,
}

/// Color of overlay and menu text.
pub open spec fn spec_text() -> Cor {
    Cor { r: 249, g: 219, b: 187 }
}

/// Background drawn behind overlay and menu text.
pub open spec fn spec_text_bg() -> Cor {
    Cor { r: 46, g: 56, b: 64 }
}

/// Background of the play field when no score highlight is active.
pub open spec fn spec_background() -> Cor {
    Cor { r: 46, g: 56, b: 64 }
}

/// Background of the play field at the peak of the score highlight.
pub open spec fn spec_background_highlight() -> Cor {
    Cor { r: 78, g: 110, b: 129 }
}

/// Color of the player when no flap highlight is active.
pub open spec fn spec_bird() -> Cor {
    Cor { r: 255, g: 96, b: 0 }
}

/// Color of the player at the peak of the flap highlight.
pub open spec fn spec_bird_highlight() -> Cor {
    Cor { r: 255, g: 226, b: 125 }
}

/// Foreground color of obstacle wall cells.
pub open spec fn spec_obstacle() -> Cor {
    Cor { r: 249, g: 219, b: 187 }
}

/// Background color of obstacle wall cells.
pub open spec fn spec_obstacle_bg() -> Cor {
    Cor { r: 249, g: 219, b: 187 }
}

pub fn text() -> (c: Cor)
    ensures
        c == spec_text(),
{
    Cor { r: 249, g: 219, b: 187 }
}

pub fn text_bg() -> (c: Cor)
    ensures
        c == spec_text_bg(),
{
    Cor { r: 46, g: 56, b: 64 }
}

pub fn background() -> (c: Cor)
    ensures
        c == spec_background(),
{
    Cor { r: 46, g: 56, b: 64 }
}

pub fn background_highlight() -> (c: Cor)
    ensures
        c == spec_background_highlight(),
{
    Cor { r: 78, g: 110, b: 129 }
}

pub fn bird() -> (c: Cor)
    ensures
        c == spec_bird(),
{
    Cor { r: 255, g: 96, b: 0 }
}

pub fn bird_highlight() -> (c: Cor)
    ensures
        c == spec_bird_highlight(),
{
    Cor { r: 255, g: 226, b: 125 }
}

pub fn obstacle() -> (c: Cor)
    ensures
        c == spec_obstacle(),
{
    Cor { r: 249, g: 219, b: 187 }
}

pub fn obstacle_bg() -> (c: Cor)
    ensures
        c == spec_obstacle_bg(),
{
    Cor { r: 249, g: 219, b: 187 }
}

} // verus!
