//! The game proper: score, difficulty and the modules that build the level.

pub mod background;
pub mod camera;
pub mod collisions;
pub mod platforms;
pub mod player;
pub mod sprite_scaler;

use vstd::prelude::*;
use crate::art;
use crate::generic::Range;
use crate::units::{scale_value, scaled, WORLD_LIMIT};
use sprite_scaler::ScaleFactor;

verus! {

/// Platform height, in tiles, at the start of the game.
pub const START_PLATFORM_HEIGHT: i32 = 2;

/// The level number goes up by one every `POINTS_PER_LEVEL` points.
pub const POINTS_PER_LEVEL: i32 = 20;

/// Platforms never get higher than this many tiles.
pub const MAX_PLATFORM_HEIGHT: i32 = 8;

/// Each level widens the gap between platforms by this many percent of its start value.
pub const GAP_PERCENT_PER_LEVEL: i64 = 5;

/// Each level raises the plane's top speed by this many percent of its start value.
pub const SPEED_PERCENT_PER_LEVEL: i64 = 7;

/// The highest level that a score can reach.
pub const LEVEL_LIMIT: i32 = 107_374_183;

/// Largest start gap or start speed that the difficulty may be built on.
pub const START_LIMIT: i64 = 10_000_000_000;

/// The plane's top speed across the screen at scale factor 1, per second.
pub const START_PLAYER_MAX_SPEED_X: i64 = 125_000;

/// The plane's top speed down the shaft at scale factor 1, per second.
pub const START_PLAYER_MAX_SPEED_Y: i64 = 212_500;

/// A pair of world lengths, one per axis.
#[derive(Debug, Clone, Copy, PartialEq, Eq, Structural)]
pub struct Vector2 {
    pub x: i64,
    pub y: i64,
}

/// Whether the game is being played, is halted, or has ended in a crash.
#[derive(Debug, Clone, Copy, Eq, PartialEq, Structural, Hash)]
pub enum GameState {
    Running,
    Paused,
    GameOver,
}

impl Default for GameState {
    fn default() -> (state: GameState)
        ensures
            state == GameState::Running,
    {
        GameState::Running
    }
}

/// The difficulty that the current score has earned.
#[derive(Debug, Clone, Copy, PartialEq, Eq)]
pub struct Difficulty {
    /// The other fields follow from the level, which itself follows from the score.
    pub level: i32,
    /// The least and the largest vertical distance between one platform and the next.
    pub platform_gap: Range<i64>,
    /// Platform height in tiles.
    pub platform_height: i32,
    pub player_max_speed: Vector2,
    /// The gap at the start of the game, which the current gap is a multiple of.
    pub start_platform_gap: Range<i64>,
    /// The top speed at the start of the game, which the current one is a multiple of.
    pub start_player_max_speed: Vector2,
}

/// Score and difficulty of the game in progress.
#[derive(Debug, Clone, Copy, PartialEq, Eq)]
pub struct Game {
    pub score: i32,
    pub difficulty: Difficulty,
}

/// The level that a score has reached.
pub open spec fn level_for_score(score: int) -> int {
    score / (POINTS_PER_LEVEL as int) + 1
}

/// Platform height at a level: one tile more per level, up to the maximum.
pub open spec fn platform_height_for_level(level: int) -> int {
    if START_PLATFORM_HEIGHT - 1 + level > MAX_PLATFORM_HEIGHT {
        MAX_PLATFORM_HEIGHT as int
    } else {
        START_PLATFORM_HEIGHT - 1 + level
    }
}

/// A platform gap at a level: the start value times `1 + 0.05 * level`, rounded down.
pub open spec fn gap_for_level(start: int, level: int) -> int {
    scaled(start, 100 + GAP_PERCENT_PER_LEVEL * level, 100)
}

/// A top speed at a level: the start value times `1 + 0.07 * level`, rounded down.
pub open spec fn speed_for_level(start: int, level: int) -> int {
    scaled(start, 100 + SPEED_PERCENT_PER_LEVEL * level, 100)
}

/// The difficulty that `score` earns, measured from the start values kept in `before`.
pub open spec fn difficulty_for_score(before: Difficulty, score: int) -> Difficulty {
    let level = level_for_score(score);
    Difficulty {
        level: level as i32,
        platform_gap: Range {
            min: gap_for_level(before.start_platform_gap.min as int, level) as i64,
            max: gap_for_level(before.start_platform_gap.max as int, level) as i64,
        },
        platform_height: platform_height_for_level(level) as i32,
        player_max_speed: Vector2 {
            x: speed_for_level(before.start_player_max_speed.x as int, level) as i64,
            y: speed_for_level(before.start_player_max_speed.y as int, level) as i64,
        },
        start_platform_gap: before.start_platform_gap,
        start_player_max_speed: before.start_player_max_speed,
    }
}

/// The difficulty a new game starts with at the given scale factor. The gap is 2.2 to
/// 2.7 plane heights, and the current values are the start values themselves.
pub open spec fn start_difficulty(scale_factor: ScaleFactor) -> Difficulty {
    let player_world_height = art::PLAYER_SPRITE_SIZE * scale_factor.current;
    let start_platform_gap = Range {
        min: (player_world_height * 22 / 10) as i64,
        max: (player_world_height * 27 / 10) as i64,
    };
    let start_player_max_speed = Vector2 {
        x: (START_PLAYER_MAX_SPEED_X * scale_factor.current) as i64,
        y: (START_PLAYER_MAX_SPEED_Y * scale_factor.current) as i64,
    };
    Difficulty {
        level: 1,
        platform_gap: start_platform_gap,
        platform_height: START_PLATFORM_HEIGHT,
        player_max_speed: start_player_max_speed,
        start_platform_gap,
        start_player_max_speed,
    }
}

impl Difficulty {
    /// Level and platform height are in range, and no length is negative or beyond the
    /// limit for its kind.
    pub open spec fn wf(&self) -> bool {
        &&& 1 <= self.level <= LEVEL_LIMIT
        &&& 1 <= self.platform_height <= MAX_PLATFORM_HEIGHT
        &&& 0 <= self.platform_gap.min <= WORLD_LIMIT
        &&& 0 <= self.platform_gap.max <= WORLD_LIMIT
        &&& 0 <= self.player_max_speed.x <= WORLD_LIMIT
        &&& 0 <= self.player_max_speed.y <= WORLD_LIMIT
        &&& 0 <= self.start_platform_gap.min <= START_LIMIT
        &&& 0 <= self.start_platform_gap.max <= START_LIMIT
        &&& 0 <= self.start_player_max_speed.x <= START_LIMIT
        &&& 0 <= self.start_player_max_speed.y <= START_LIMIT
    }

    /// Tests `wf` at run time.
    pub fn is_wf(&self) -> (ok: bool)
        ensures
            ok == self.wf(),
    {
        1 <= self.level && self.level <= LEVEL_LIMIT && 1 <= self.platform_height
            && self.platform_height <= MAX_PLATFORM_HEIGHT && within(
            self.platform_gap.min,
            WORLD_LIMIT,
        ) && within(self.platform_gap.max, WORLD_LIMIT) && within(
            self.player_max_speed.x,
            WORLD_LIMIT,
        ) && within(self.player_max_speed.y, WORLD_LIMIT) && within(
            self.start_platform_gap.min,
            START_LIMIT,
        ) && within(self.start_platform_gap.max, START_LIMIT) && within(
            self.start_player_max_speed.x,
            START_LIMIT,
        ) && within(self.start_player_max_speed.y, START_LIMIT)
    }
}

/// Whether `value` lies between zero and `limit`.
fn within(value: i64, limit: i64) -> (ok: bool)
    ensures
        ok == (0 <= value <= limit),
{
    0 <= value && value <= limit
}

impl Game {
    /// The score is not negative and the difficulty is well formed.
    pub open spec fn wf(&self) -> bool {
        &&& 0 <= self.score
        &&& self.difficulty.wf()
    }

    /// Tests `wf` at run time.
    pub fn is_wf(&self) -> (ok: bool)
        ensures
            ok == self.wf(),
    {
        0 <= self.score && self.difficulty.is_wf()
    }

    /// A game at score zero, with the start difficulty for the given scale factor.
    pub fn new(scale_factor: &ScaleFactor) -> (game: Game)
        requires
            scale_factor.wf(),
        ensures
            game.score == 0,
            game.difficulty == start_difficulty(*scale_factor),
            game.wf(),
    {
        let player_world_height: i64 = art::PLAYER_SPRITE_SIZE * scale_factor.current;

        let start_platform_gap: Range<i64> = Range {
            min: player_world_height * 22 / 10,
            max: player_world_height * 27 / 10,
        };
        let start_player_max_speed = Vector2 {
            x: START_PLAYER_MAX_SPEED_X * scale_factor.current,
            y: START_PLAYER_MAX_SPEED_Y * scale_factor.current,
        };

        Game {
            score: 0,
            difficulty: Difficulty {
                level: 1,
                platform_gap: start_platform_gap,
                platform_height: START_PLATFORM_HEIGHT,
                player_max_speed: start_player_max_speed,
                start_platform_gap,
                start_player_max_speed,
            },
        }
    }
}

/// The level that `score` has reached.
pub fn level(score: i32) -> (level: i32)
    requires
        0 <= score,
    ensures
        level == level_for_score(score as int),
        1 <= level <= LEVEL_LIMIT,
{
    (score / POINTS_PER_LEVEL) + 1
}

/// A start value multiplied by `1 + percent_per_level * level / 100`, rounded down.
fn value_at_level(start: i64, percent_per_level: i64, level: i32) -> (value: i64)
    requires
        0 <= start <= START_LIMIT,
        1 <= level <= LEVEL_LIMIT,
        0 <= percent_per_level <= SPEED_PERCENT_PER_LEVEL,
    ensures
        value == scaled(start as int, 100 + percent_per_level * level, 100),
        0 <= value <= WORLD_LIMIT,
{
    assert(0 <= percent_per_level * level <= 7 * LEVEL_LIMIT) by (nonlinear_arith)
        requires
            0 <= percent_per_level <= 7,
            1 <= level <= LEVEL_LIMIT,
    ;
    let multiplier: i64 = 100 + percent_per_level * (level as i64);
    assert(0 <= (start as int) * (multiplier as int) <= START_LIMIT * (100 + 7 * LEVEL_LIMIT))
        by (nonlinear_arith)
        requires
            0 <= start <= START_LIMIT,
            0 <= multiplier <= 100 + 7 * LEVEL_LIMIT,
    ;
    scale_value(start, multiplier, 100)
}

/// Recalculates the difficulty from the score. Called when the score has gone up.
pub fn recalculate_difficulty(game: &mut Game)
    requires
        old(game).wf(),
    ensures
        final(game).score == old(game).score,
        final(game).difficulty == difficulty_for_score(
            old(game).difficulty,
            old(game).score as int,
        ),
        final(game).wf(),
{
    let level: i32 = level(game.score);
    game.difficulty.level = level;

    // The platforms move further apart as the game gets harder, so that the plane can
    // still be steered between them at high speed.
    game.difficulty.platform_gap.min = value_at_level(
        game.difficulty.start_platform_gap.min,
        GAP_PERCENT_PER_LEVEL,
        level,
    );
    game.difficulty.platform_gap.max = value_at_level(
        game.difficulty.start_platform_gap.max,
        GAP_PERCENT_PER_LEVEL,
        level,
    );

    let mut platform_height: i32 = START_PLATFORM_HEIGHT - 1 + level;
    if platform_height > MAX_PLATFORM_HEIGHT {
        platform_height = MAX_PLATFORM_HEIGHT;
    }
    game.difficulty.platform_height = platform_height;

    game.difficulty.player_max_speed.x = value_at_level(
        game.difficulty.start_player_max_speed.x,
        SPEED_PERCENT_PER_LEVEL,
        level,
    );
    game.difficulty.player_max_speed.y = value_at_level(
        game.difficulty.start_player_max_speed.y,
        SPEED_PERCENT_PER_LEVEL,
        level,
    );
}

/// The level is the score divided by `POINTS_PER_LEVEL`, rounded down, plus one, and a
/// higher score never has a lower level.
pub proof fn lemma_level_monotonic(lower: int, higher: int)
    requires
        0 <= lower <= higher,
    ensures
        level_for_score(lower) == lower / 20 + 1,
        1 <= level_for_score(lower) <= level_for_score(higher),
{
}

/// From level 1 on, the platform height never falls as the level rises, starts at
/// `START_PLATFORM_HEIGHT` and never exceeds `MAX_PLATFORM_HEIGHT`.
pub proof fn lemma_platform_height_monotonic(lower: int, higher: int)
    requires
        1 <= lower <= higher,
    ensures
        START_PLATFORM_HEIGHT <= platform_height_for_level(lower) <= platform_height_for_level(
            higher,
        ) <= MAX_PLATFORM_HEIGHT,
        platform_height_for_level(1) == START_PLATFORM_HEIGHT,
{
}

/// The gap grows in proportion to the level: a gap is its start value times
/// `100 + 5 * level` hundredths with the fraction dropped, and exactly
/// `start + level * start / 20` when the start value is a multiple of 20. The lower end
/// stays below the upper end whenever it started below it.
pub proof fn lemma_gap_scales_with_level(start: Range<i64>, level: int)
    requires
        0 <= level,
        0 <= start.min,
        0 <= start.max,
    ensures
        100 * gap_for_level(start.min as int, level) <= start.min * (100 + 5 * level) < 100
            * gap_for_level(start.min as int, level) + 100,
        100 * gap_for_level(start.max as int, level) <= start.max * (100 + 5 * level) < 100
            * gap_for_level(start.max as int, level) + 100,
        start.min % 20 == 0 ==> gap_for_level(start.min as int, level) == start.min + level * (
        start.min / 20),
        start.max % 20 == 0 ==> gap_for_level(start.max as int, level) == start.max + level * (
        start.max / 20),
        start.min < start.max ==> gap_for_level(start.min as int, level) < gap_for_level(
            start.max as int,
            level,
        ),
        start.min <= start.max ==> gap_for_level(start.min as int, level) <= gap_for_level(
            start.max as int,
            level,
        ),
{
    let m = 100 + 5 * level;
    let a = start.min as int;
    let b = start.max as int;
    assert(a % 20 == 0 ==> (a * m) / 100 == a + level * (a / 20)) by (nonlinear_arith)
        requires
            m == 100 + 5 * level,
            0 <= level,
            0 <= a,
    ;
    assert(b % 20 == 0 ==> (b * m) / 100 == b + level * (b / 20)) by (nonlinear_arith)
        requires
            m == 100 + 5 * level,
            0 <= level,
            0 <= b,
    ;
    assert(a < b ==> b * m >= a * m + 100) by (nonlinear_arith)
        requires
            m >= 100,
            0 <= a,
            0 <= b,
    ;
    assert(a <= b ==> b * m >= a * m) by (nonlinear_arith)
        requires
            m >= 100,
            0 <= a,
            0 <= b,
    ;
}

} // verus!
