//! The scale factor that fits the level to the window.

use vstd::prelude::*;
use crate::art;
use crate::units::{SCALE_LIMIT, WINDOW_LIMIT};

verus! {

/// How many wall tiles the level is high.
pub const LEVEL_TILE_HEIGHT: i64 = 5;

/// The whole-number factor by which every sprite is enlarged.
#[derive(Debug, Clone, Copy, PartialEq, Eq, Structural)]
pub struct ScaleFactor {
    pub current: i64,
}

impl ScaleFactor {
    /// The factor is non-negative and within the range the rules are stated for.
    pub open spec fn wf(&self) -> bool {
        0 <= self.current <= SCALE_LIMIT
    }

    /// Tests `wf` at run time.
    pub fn is_wf(&self) -> (ok: bool)
        ensures
            ok == self.wf(),
    {
        0 <= self.current && self.current <= SCALE_LIMIT
    }
}

/// The scale factor for a window of the given height: the largest whole factor at which
/// `LEVEL_TILE_HEIGHT` wall tiles still fit.
pub open spec fn sprite_scale(window_height: int) -> int {
    window_height / (art::WALL_SPRITE_SIZE * LEVEL_TILE_HEIGHT)
}

/// Recomputes the scale factor after the window was resized.
pub fn calculate_sprite_scale(window_height: i64) -> (scale_factor: ScaleFactor)
    requires
        0 <= window_height <= WINDOW_LIMIT,
    ensures
        scale_factor.current == sprite_scale(window_height as int),
        scale_factor.wf(),
{
    let unscaled_height: i64 = art::WALL_SPRITE_SIZE * LEVEL_TILE_HEIGHT;
    ScaleFactor { current: window_height / unscaled_height }
}

} // verus!
