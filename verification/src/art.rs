//! Sizes of the sprites that the world is built from, before scaling.

use vstd::prelude::*;
use crate::units::UNITS_PER_PIXEL;

verus! {

/// Rows of the plane's sprite sheet.
pub const PLAYER_SPRITE_SHEET_ROWS: usize = 1;

/// Columns of the plane's sprite sheet.
pub const PLAYER_SPRITE_SHEET_COLUMNS: usize = 6;

/// Number of frames in the plane's sprite sheet, from pointing fully sideways to
/// pointing straight down.
pub const PLAYER_SPRITESHEET_INDICES: usize = 6;

/// Width and height of the plane sprite.
pub const PLAYER_SPRITE_SIZE: i64 = 32 * UNITS_PER_PIXEL;

/// Width and height of one background wall tile.
pub const WALL_SPRITE_SIZE: i64 = 64 * UNITS_PER_PIXEL;

/// Width and height of one platform tile.
pub const PLATFORM_SPRITE_SIZE: i64 = 8 * UNITS_PER_PIXEL;

/// Columns of the crash animation's sprite sheet.
pub const DEATH_SPRITE_SHEET_COLUMNS: usize = 8;

/// Rows of the crash animation's sprite sheet.
pub const DEATH_SPRITE_SHEET_ROWS: usize = 1;

/// Number of frames in the crash animation's sprite sheet.
pub const DEATH_SPRITESHEET_INDICES: usize = 8;

} // verus!
