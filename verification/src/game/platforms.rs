//! Platforms: what they are and where they appear.
//!
//! How a platform is shown is the matter of [`tiles`], when it leaves that of
//! [`pruning`].

pub mod pruning;
pub mod tiles;

use vstd::prelude::*;
use crate::art;
use crate::game::sprite_scaler::ScaleFactor;
use crate::game::{Difficulty, MAX_PLATFORM_HEIGHT};
use crate::generic::{refreshed_screen, Direction, Range, ScreenInformation};
use crate::random::random_in;
use crate::units::{div_toward_zero, saturate_i32, saturating_i32, WORLD_LIMIT};

verus! {

/// Out of a hundred rounds, how many put a platform on both sides.
pub const DOUBLE_SIDED_PLATFORM_CHANCE: i64 = 10;

/// The side of the very first platform.
pub const FIRST_PLATFORM_SIDE: Direction = Direction::Left;

/// The first platform's top edge lies this fraction of the window height up the screen.
pub const FIRST_PLATFORM_Y_DIVISOR: i64 = 4;

/// Platforms are generated until the last one lies this many gaps below the screen.
pub const LOOK_AHEAD_GAPS: i64 = 4;

/// Largest magnitude of a coordinate of a platform in the list.
pub const PLATFORM_LIMIT: i64 = 1_000_000_000_000_000_000;

/// Room that is kept below `PLATFORM_LIMIT` for the height of one platform.
pub const PLATFORM_HEIGHT_ROOM: i64 = 1_000_000_000;

/// An obstacle that grows inward from one of the level's walls.
#[derive(Debug, Copy, Clone, PartialEq, Eq)]
pub struct Platform {
    /// Position in the order of spawning, counted from zero.
    pub index: u32,
    /// The x and the y interval that the platform covers.
    pub hitbox: [Range<i64>; 2],
    /// Width and height in tiles.
    pub dimensions: [i32; 2],
    /// The wall that the platform is attached to.
    pub side: Direction,
}

/// The platforms that exist, oldest first, and how many were ever spawned.
#[derive(Debug)]
pub struct Platforms {
    pub total_platforms: u32,
    pub platforms_vec: Vec<Platform>,
}

/// The numbers that chance contributes to one round of platform generation.
#[derive(Debug, Copy, Clone, PartialEq, Eq)]
pub struct SpawnDraws {
    /// Vertical distance from the last platform to the new one.
    pub gap: i64,
    /// How many tiles the new platform's width differs from half the level's width.
    pub length: i32,
    /// A number from `0..100`; below `DOUBLE_SIDED_PLATFORM_CHANCE` the round puts a
    /// second platform on the opposite wall.
    pub double_sided: i64,
}

impl Platform {
    /// Both intervals of the hitbox run from their lower to their upper end and lie
    /// within `PLATFORM_LIMIT`.
    pub open spec fn wf(&self) -> bool {
        &&& self.hitbox[0].normalized()
        &&& self.hitbox[1].normalized()
        &&& -PLATFORM_LIMIT <= self.hitbox[0].min && self.hitbox[0].max <= PLATFORM_LIMIT
        &&& -PLATFORM_LIMIT <= self.hitbox[1].min && self.hitbox[1].max <= PLATFORM_LIMIT
    }

    /// Tests `wf` at run time.
    pub fn is_wf(&self) -> (ok: bool)
        ensures
            ok == self.wf(),
    {
        -PLATFORM_LIMIT <= self.hitbox[0].min && self.hitbox[0].min <= self.hitbox[0].max
            && self.hitbox[0].max <= PLATFORM_LIMIT && -PLATFORM_LIMIT <= self.hitbox[1].min
            && self.hitbox[1].min <= self.hitbox[1].max && self.hitbox[1].max <= PLATFORM_LIMIT
    }
}

/// The side length of one platform tile in the world.
pub open spec fn platform_world_size(scale_factor: ScaleFactor) -> int {
    art::PLATFORM_SPRITE_SIZE * scale_factor.current
}

/// How many platform tiles fit between the level's walls.
pub open spec fn platforms_across_screen(
    screen: ScreenInformation,
    scale_factor: ScaleFactor,
) -> int {
    saturate_i32(
        div_toward_zero(
            screen.window_width - screen.x_deadspace * 2,
            platform_world_size(scale_factor),
        ),
    )
}

/// How many platform tiles make up the width of the plane. A platform's width differs
/// from half the level's width by less than this, and a pair of platforms leaves twice
/// this between them.
pub open spec fn platform_length_variance(scale_factor: ScaleFactor) -> int {
    (art::PLAYER_SPRITE_SIZE * scale_factor.current) / platform_world_size(scale_factor)
}

/// The stand-in for a last platform when there is none: its lower edge lies one gap
/// above the place of the first platform's top edge, and it sits opposite the first
/// platform's side.
pub open spec fn sentinel_platform(screen: ScreenInformation, gap: int) -> Platform {
    Platform {
        index: 0,
        hitbox: [
            Range { min: 0, max: 0 },
            Range { min: (screen.window_height / FIRST_PLATFORM_Y_DIVISOR + gap) as i64, max: 0 },
        ],
        dimensions: [0, 0],
        side: FIRST_PLATFORM_SIDE.reverse(),
    }
}

/// The platform that the next one is placed after: the last of the list, or the
/// sentinel when the list is empty.
pub open spec fn last_platform(
    platforms: Seq<Platform>,
    screen: ScreenInformation,
    gap: int,
) -> Platform {
    if platforms.len() > 0 {
        platforms.last()
    } else {
        sentinel_platform(screen, gap)
    }
}

/// Whether the platforms end too close to the screen, so that another one is due:
/// the last platform's lower edge is less than `LOOK_AHEAD_GAPS` gaps below the screen.
pub open spec fn frontier_short(last: Platform, screen: ScreenInformation, gap: int) -> bool {
    last.hitbox[1].min > screen.y_visible_area.min - gap * LOOK_AHEAD_GAPS
}

/// A new platform as it is planned before it is placed: on the wall opposite `last`,
/// one gap below it, about half the level wide. Of its hitbox only the top edge is set.
pub open spec fn planned_platform(
    last: Platform,
    index: u32,
    across: int,
    length_draw: int,
    height: int,
    gap: int,
) -> Platform {
    Platform {
        index,
        hitbox: [
            Range { min: 0, max: 0 },
            Range { min: 0, max: (last.hitbox[1].min - gap) as i64 },
        ],
        dimensions: [(div_toward_zero(across, 2) + length_draw) as i32, height as i32],
        side: last.side.reverse(),
    }
}

/// The partner of a planned platform on the opposite wall, at the same height. Its
/// width leaves twice `variance` tiles of the level's width free between the two.
pub open spec fn opposite_platform(
    first: Platform,
    index: u32,
    across: int,
    variance: int,
) -> Platform {
    Platform {
        index,
        hitbox: [Range { min: 0, max: 0 }, Range { min: 0, max: first.hitbox[1].max }],
        dimensions: [(across - first.dimensions[0] - variance * 2) as i32, first.dimensions[1]],
        side: first.side.reverse(),
    }
}

/// The x coordinate where a platform ends toward the middle of the level: its width in
/// tiles away from its wall.
pub open spec fn inner_edge(
    platform: Platform,
    screen: ScreenInformation,
    scale_factor: ScaleFactor,
) -> int {
    match platform.side {
        Direction::Left => screen.wall_x(platform.side) + platform.dimensions[0]
            * platform_world_size(scale_factor),
        Direction::Right => screen.wall_x(platform.side) - platform.dimensions[0]
            * platform_world_size(scale_factor),
    }
}

/// A planned platform with its hitbox worked out. The x interval runs between the wall
/// of its side and its inner edge, lower end first; the y interval runs from its height
/// in tiles below the top edge up to the top edge.
pub open spec fn placed_platform(
    platform: Platform,
    screen: ScreenInformation,
    scale_factor: ScaleFactor,
) -> Platform {
    let wall = screen.wall_x(platform.side);
    let inner = inner_edge(platform, screen, scale_factor);
    Platform {
        index: platform.index,
        hitbox: [
            Range {
                min: (if wall <= inner { wall } else { inner }) as i64,
                max: (if wall <= inner { inner } else { wall }) as i64,
            },
            Range {
                min: (platform.hitbox[1].max - platform_world_size(scale_factor)
                    * platform.dimensions[1]) as i64,
                max: platform.hitbox[1].max,
            },
        ],
        dimensions: platform.dimensions,
        side: platform.side,
    }
}

impl SpawnDraws {
    /// The draws lie in the ranges that they are drawn from: the gap in the difficulty's
    /// gap range, the length within one plane width either way, the third in `0..100`.
    pub open spec fn valid(&self, difficulty: Difficulty, scale_factor: ScaleFactor) -> bool {
        &&& difficulty.platform_gap.min <= self.gap < difficulty.platform_gap.max
        &&& -platform_length_variance(scale_factor) <= self.length < platform_length_variance(
            scale_factor,
        )
        &&& 0 <= self.double_sided < 100
    }
}

/// The platforms that one round of generation appends to `platforms`, of which `total`
/// were spawned so far.
///
/// None if the list already reaches far enough below the screen for this round's gap.
/// Otherwise one platform opposite the last, and with it, if the third draw is below
/// `DOUBLE_SIDED_PLATFORM_CHANCE`, its partner on the other wall.
pub open spec fn round_platforms(
    platforms: Seq<Platform>,
    total: int,
    screen: ScreenInformation,
    difficulty: Difficulty,
    scale_factor: ScaleFactor,
    draws: SpawnDraws,
) -> Seq<Platform> {
    let last = last_platform(platforms, screen, draws.gap as int);
    let across = platforms_across_screen(screen, scale_factor);
    let planned = planned_platform(
        last,
        total as u32,
        across,
        draws.length as int,
        difficulty.platform_height as int,
        draws.gap as int,
    );
    let partner = opposite_platform(
        planned,
        (total + 1) as u32,
        across,
        platform_length_variance(scale_factor),
    );
    if !frontier_short(last, screen, draws.gap as int) {
        Seq::empty()
    } else if draws.double_sided < DOUBLE_SIDED_PLATFORM_CHANCE {
        seq![
            placed_platform(planned, screen, scale_factor),
            placed_platform(partner, screen, scale_factor),
        ]
    } else {
        seq![placed_platform(planned, screen, scale_factor)]
    }
}

/// The list after the given rounds of generation, run one after the other on
/// `platforms`, of which `total` were spawned before the first round.
pub open spec fn after_rounds(
    platforms: Seq<Platform>,
    total: int,
    screen: ScreenInformation,
    difficulty: Difficulty,
    scale_factor: ScaleFactor,
    rounds: Seq<SpawnDraws>,
) -> Seq<Platform>
    decreases rounds.len(),
{
    if rounds.len() == 0 {
        platforms
    } else {
        let before = after_rounds(
            platforms,
            total,
            screen,
            difficulty,
            scale_factor,
            rounds.drop_last(),
        );
        before + round_platforms(
            before,
            total + (before.len() - platforms.len()),
            screen,
            difficulty,
            scale_factor,
            rounds.last(),
        )
    }
}

/// How far the end of the list lies above the depth at which generation stops for
/// every gap that can be drawn; zero when it lies at or below that depth.
pub open spec fn frontier_excess(
    platforms: Seq<Platform>,
    screen: ScreenInformation,
    difficulty: Difficulty,
) -> int {
    let reach = screen.y_visible_area.min - difficulty.platform_gap.max * LOOK_AHEAD_GAPS;
    let frontier = last_platform(
        platforms,
        screen,
        difficulty.platform_gap.max as int,
    ).hitbox[1].min;
    if frontier > reach {
        frontier - reach
    } else {
        0
    }
}

/// Whether `after` is what generation makes of `before`: the outcome of the given
/// rounds, each with valid draws, ending either because the list reaches far enough
/// for the gap drawn last, `closing_gap`, or because the counter of spawned platforms
/// has no room for another round.
pub open spec fn generated_from(
    after: Seq<Platform>,
    before: Seq<Platform>,
    total: int,
    screen: ScreenInformation,
    difficulty: Difficulty,
    scale_factor: ScaleFactor,
    rounds: Seq<SpawnDraws>,
    closing_gap: int,
) -> bool {
    &&& forall|i: int|
        0 <= i < rounds.len() ==> (#[trigger] rounds[i]).valid(difficulty, scale_factor)
    &&& after == after_rounds(before, total, screen, difficulty, scale_factor, rounds)
    &&& {
        ||| total + (after.len() - before.len()) > u32::MAX - 2
        ||| {
            &&& difficulty.platform_gap.min <= closing_gap < difficulty.platform_gap.max
            &&& !frontier_short(last_platform(after, screen, closing_gap), screen, closing_gap)
        }
    }
}

impl Platforms {
    /// The list is consistent with the counter and with the way platforms are spawned:
    /// the indices count up to the total without a break, every hitbox is well formed,
    /// neighbours sit on opposite walls, and no platform ends above an older one.
    pub open spec fn wf(&self) -> bool {
        let list = self.platforms_vec@;
        &&& list.len() <= self.total_platforms
        &&& forall|i: int|
            0 <= i < list.len() ==> (#[trigger] list[i]).index == self.total_platforms
                - list.len() + i
        &&& forall|i: int| 0 <= i < list.len() ==> (#[trigger] list[i]).wf()
        &&& forall|i: int, j: int|
            0 <= i && j == i + 1 && j < list.len() ==> (#[trigger] list[j]).side == (
            #[trigger] list[i]).side.reverse()
        &&& forall|i: int, j: int|
            0 <= i && j == i + 1 && j < list.len() ==> (#[trigger] list[j]).hitbox[1].min <= (
            #[trigger] list[i]).hitbox[1].min
    }

    /// Whether `platform`, once placed, may be appended: it carries the next index,
    /// its height is a platform height, its top edge leaves room for that height, and
    /// it continues the list on the opposite wall, not above the last platform.
    pub open spec fn accepts(
        &self,
        platform: Platform,
        screen: ScreenInformation,
        scale_factor: ScaleFactor,
    ) -> bool {
        let list = self.platforms_vec@;
        &&& self.total_platforms < u32::MAX
        &&& platform.index == self.total_platforms
        &&& 0 <= platform.dimensions[1] <= MAX_PLATFORM_HEIGHT
        &&& -PLATFORM_LIMIT + PLATFORM_HEIGHT_ROOM <= platform.hitbox[1].max <= PLATFORM_LIMIT
        &&& list.len() > 0 ==> {
            &&& platform.side == list.last().side.reverse()
            &&& placed_platform(platform, screen, scale_factor).hitbox[1].min
                <= list.last().hitbox[1].min
        }
    }

    /// Tests `wf` at run time.
    pub fn is_wf(&self) -> (ok: bool)
        ensures
            ok == self.wf(),
    {
        let len = self.platforms_vec.len();
        if len as u64 > self.total_platforms as u64 {
            return false;
        }
        let first_index: u64 = self.total_platforms as u64 - len as u64;
        let mut i: usize = 0;
        while i < len
            invariant
                i <= len,
                len == self.platforms_vec@.len(),
                len <= self.total_platforms,
                first_index == self.total_platforms - len,
                forall|k: int|
                    0 <= k < i ==> (#[trigger] self.platforms_vec@[k]).index == first_index + k
                        && self.platforms_vec@[k].wf(),
                forall|k: int, l: int|
                    0 <= k && l == k + 1 && l < i ==> (#[trigger] self.platforms_vec@[l]).side == (
                    #[trigger] self.platforms_vec@[k]).side.reverse()
                        && self.platforms_vec@[l].hitbox[1].min
                        <= self.platforms_vec@[k].hitbox[1].min,
            decreases len - i,
        {
            let platform = &self.platforms_vec[i];
            if platform.index as u64 != first_index + i as u64 || !platform.is_wf() {
                return false;
            }
            if i > 0 {
                let previous = &self.platforms_vec[i - 1];
                if platform.side != previous.side.reverse() || platform.hitbox[1].min
                    > previous.hitbox[1].min {
                    assert(self.platforms_vec@[i as int].side != self.platforms_vec@[i
                        - 1].side.reverse() || self.platforms_vec@[i as int].hitbox[1].min
                        > self.platforms_vec@[i - 1].hitbox[1].min);
                    return false;
                }
            }
            i += 1;
        }
        true
    }

    /// No platforms, and none spawned so far.
    pub fn new() -> (platforms: Platforms)
        ensures
            platforms.total_platforms == 0,
            platforms.platforms_vec@ == Seq::<Platform>::empty(),
            platforms.wf(),
    {
        Platforms { total_platforms: 0, platforms_vec: Vec::new() }
    }
}

/// The side length of one platform tile in the world.
pub fn platform_tile_size(scale_factor: &ScaleFactor) -> (size: i64)
    requires
        scale_factor.wf(),
    ensures
        size == platform_world_size(*scale_factor),
        0 <= size <= 80_000_000,
{
    art::PLATFORM_SPRITE_SIZE * scale_factor.current
}

/// Works out the hitbox of a planned platform from its side, its size in tiles and
/// its top edge.
pub fn place_platform(
    platform: Platform,
    screen_information: &ScreenInformation,
    scale_factor: &ScaleFactor,
) -> (placed: Platform)
    requires
        screen_information.wf(),
        scale_factor.wf(),
        0 <= platform.dimensions[1] <= MAX_PLATFORM_HEIGHT,
        -PLATFORM_LIMIT + PLATFORM_HEIGHT_ROOM <= platform.hitbox[1].max <= PLATFORM_LIMIT,
    ensures
        placed == placed_platform(platform, *screen_information, *scale_factor),
        placed.wf(),
{
    let tile_size: i64 = platform_tile_size(scale_factor);
    let width: i64 = platform.dimensions[0] as i64;
    let height: i64 = platform.dimensions[1] as i64;
    assert(-172_000_000_000_000_000 <= width * tile_size <= 172_000_000_000_000_000)
        by (nonlinear_arith)
        requires
            -2_147_483_648 <= width <= 2_147_483_647,
            0 <= tile_size <= 80_000_000,
    ;
    assert(0 <= tile_size * height <= 640_000_000) by (nonlinear_arith)
        requires
            0 <= height <= 8,
            0 <= tile_size <= 80_000_000,
    ;

    // A platform grows away from its wall: to the right from the left wall, to the
    // left from the right one.
    let wall_x: i64;
    let inner_x: i64;
    match platform.side {
        Direction::Left => {
            wall_x = screen_information.x_deadspace;
            inner_x = wall_x + width * tile_size;
        },
        Direction::Right => {
            wall_x = screen_information.window_width - screen_information.x_deadspace;
            inner_x = wall_x - width * tile_size;
        },
    }

    Platform {
        index: platform.index,
        hitbox: [
            if wall_x <= inner_x {
                Range { min: wall_x, max: inner_x }
            } else {
                Range { min: inner_x, max: wall_x }
            },
            Range { min: platform.hitbox[1].max - tile_size * height, max: platform.hitbox[1].max },
        ],
        dimensions: platform.dimensions,
        side: platform.side,
    }
}

/// Places a planned platform and appends it to the list.
///
/// Returns the platform as it now stands in the list. The tiles that show it are
/// listed by `platform_tiles`.
pub fn draw_platform(
    platform: Platform,
    platforms: &mut Platforms,
    screen_information: &ScreenInformation,
    scale_factor: &ScaleFactor,
) -> (placed: Platform)
    requires
        old(platforms).wf(),
        screen_information.wf(),
        scale_factor.wf(),
        old(platforms).accepts(platform, *screen_information, *scale_factor),
    ensures
        placed == placed_platform(platform, *screen_information, *scale_factor),
        placed.wf(),
        final(platforms).platforms_vec@ == old(platforms).platforms_vec@.push(placed),
        final(platforms).total_platforms == old(platforms).total_platforms + 1,
        final(platforms).wf(),
{
    let placed = place_platform(platform, screen_information, scale_factor);
    platforms.platforms_vec.push(placed);
    platforms.total_platforms += 1;
    placed
}

/// With sprites scaled by one or more, the plane is four platform tiles wide.
pub proof fn lemma_length_variance(scale_factor: ScaleFactor)
    requires
        scale_factor.current >= 1,
    ensures
        platform_length_variance(scale_factor) == 4,
{
    let s = scale_factor.current as int;
    assert((32_000 * s) / (8_000 * s) == 4) by (nonlinear_arith)
        requires
            s >= 1,
    ;
}

/// How many platform tiles fit between the level's walls.
pub fn tiles_across_screen(
    screen_information: &ScreenInformation,
    scale_factor: &ScaleFactor,
) -> (across: i32)
    requires
        screen_information.wf(),
        scale_factor.wf(),
        scale_factor.current >= 1,
    ensures
        across == platforms_across_screen(*screen_information, *scale_factor),
{
    let tile_size: i64 = platform_tile_size(scale_factor);
    saturating_i32(
        (screen_information.window_width - (screen_information.x_deadspace * 2)) / tile_size,
    )
}

/// How many platform tiles make up the width of the plane.
pub fn tiles_per_player(scale_factor: &ScaleFactor) -> (variance: i32)
    requires
        scale_factor.wf(),
        scale_factor.current >= 1,
    ensures
        variance == platform_length_variance(*scale_factor),
        variance == 4,
{
    proof {
        lemma_length_variance(*scale_factor);
    }
    let tile_size: i64 = platform_tile_size(scale_factor);
    ((art::PLAYER_SPRITE_SIZE * scale_factor.current) / tile_size) as i32
}

/// The last platform of the list, or the sentinel for the given gap when there is none.
pub fn last_or_sentinel(
    platforms: &Platforms,
    screen_information: &ScreenInformation,
    gap: i64,
) -> (last: Platform)
    requires
        screen_information.wf(),
        0 <= gap <= WORLD_LIMIT,
    ensures
        last == last_platform(platforms.platforms_vec@, *screen_information, gap as int),
{
    if platforms.platforms_vec.len() > 0 {
        platforms.platforms_vec[platforms.platforms_vec.len() - 1]
    } else {
        Platform {
            index: 0,
            hitbox: [
                Range { min: 0, max: 0 },
                Range {
                    min: screen_information.window_height / FIRST_PLATFORM_Y_DIVISOR + gap,
                    max: 0,
                },
            ],
            dimensions: [0, 0],
            side: FIRST_PLATFORM_SIDE.reverse(),
        }
    }
}

/// Whether another platform is due after `last`, for the given gap.
pub fn needs_platform(last: &Platform, screen_information: &ScreenInformation, gap: i64) -> (due:
    bool)
    requires
        screen_information.wf(),
        0 <= gap <= WORLD_LIMIT,
    ensures
        due == frontier_short(*last, *screen_information, gap as int),
{
    last.hitbox[1].min > screen_information.y_visible_area.min - (gap * LOOK_AHEAD_GAPS)
}

/// Runs one round of platform generation with the given draws.
///
/// Appends to the list what `round_platforms` describes, and returns it.
pub fn spawn_round(
    platforms: &mut Platforms,
    screen_information: &ScreenInformation,
    difficulty: &Difficulty,
    scale_factor: &ScaleFactor,
    draws: &SpawnDraws,
) -> (spawned: Vec<Platform>)
    requires
        old(platforms).wf(),
        old(platforms).total_platforms <= u32::MAX - 2,
        screen_information.wf(),
        difficulty.wf(),
        scale_factor.wf(),
        scale_factor.current >= 1,
        draws.valid(*difficulty, *scale_factor),
    ensures
        spawned@ == round_platforms(
            old(platforms).platforms_vec@,
            old(platforms).total_platforms as int,
            *screen_information,
            *difficulty,
            *scale_factor,
            *draws,
        ),
        final(platforms).platforms_vec@ == old(platforms).platforms_vec@ + spawned@,
        final(platforms).total_platforms == old(platforms).total_platforms + spawned.len(),
        final(platforms).wf(),
{
    let mut spawned: Vec<Platform> = Vec::new();
    let last_platform = last_or_sentinel(platforms, screen_information, draws.gap);
    if !needs_platform(&last_platform, screen_information, draws.gap) {
        assert(platforms.platforms_vec@ + spawned@ =~= platforms.platforms_vec@);
        return spawned;
    }
    let platforms_across_screen: i32 = tiles_across_screen(screen_information, scale_factor);
    let platform_sprites_per_player_sprite: i32 = tiles_per_player(scale_factor);
    let last_platform_y_min: i64 = last_platform.hitbox[1].min;

    // Only the top of the hitbox is known at this point.
    let platform_hitbox = [
        Range { min: 0, max: 0 },
        Range { min: 0, max: last_platform_y_min - draws.gap },
    ];
    let platform_dimensions = [platforms_across_screen / 2 + draws.length, difficulty.platform_height];

    // The platform goes on the wall opposite the previous one.
    let platform_side = last_platform.side.reverse();

    let platform = Platform {
        index: platforms.total_platforms,
        hitbox: platform_hitbox,
        dimensions: platform_dimensions,
        side: platform_side,
    };
    proof {
        let tile_size = platform_world_size(*scale_factor);
        assert(0 <= tile_size * platform.dimensions[1] <= 640_000_000) by (nonlinear_arith)
            requires
                0 <= tile_size <= 80_000_000,
                0 <= platform.dimensions[1] <= 8,
        ;
    }
    let first = draw_platform(platform, platforms, screen_information, scale_factor);
    spawned.push(first);

    if draws.double_sided < DOUBLE_SIDED_PLATFORM_CHANCE {
        // The second platform takes the other wall and is just so long that a gap of
        // two plane widths stays open between the two.
        let partner = Platform {
            index: platforms.total_platforms,
            hitbox: platform_hitbox,
            dimensions: [
                platforms_across_screen - platform_dimensions[0] - (
                platform_sprites_per_player_sprite * 2),
                platform_dimensions[1],
            ],
            side: platform_side.reverse(),
        };
        let second = draw_platform(partner, platforms, screen_information, scale_factor);
        spawned.push(second);
    }
    assert(spawned@ =~= round_platforms(
        old(platforms).platforms_vec@,
        old(platforms).total_platforms as int,
        *screen_information,
        *difficulty,
        *scale_factor,
        *draws,
    ));
    assert(platforms.platforms_vec@ =~= old(platforms).platforms_vec@ + spawned@);
    spawned
}

/// A round that is due appends at least one platform, and the list then ends
/// strictly lower than before; a round that is not due appends nothing.
pub proof fn lemma_round_advances(
    platforms: Seq<Platform>,
    total: int,
    screen: ScreenInformation,
    difficulty: Difficulty,
    scale_factor: ScaleFactor,
    draws: SpawnDraws,
)
    requires
        screen.wf(),
        difficulty.wf(),
        scale_factor.wf(),
        scale_factor.current >= 1,
        draws.valid(difficulty, scale_factor),
        platforms.len() > 0 ==> platforms.last().wf(),
    ensures
        ({
            let last = last_platform(platforms, screen, draws.gap as int);
            let appended = round_platforms(
                platforms,
                total,
                screen,
                difficulty,
                scale_factor,
                draws,
            );
            &&& appended.len() > 0 <==> frontier_short(last, screen, draws.gap as int)
            &&& appended.len() <= 2
            &&& appended.len() > 0 ==> appended.last().hitbox[1].min < last.hitbox[1].min
                - draws.gap
            &&& appended.len() > 0 ==> appended[0].side == last.side.reverse()
            &&& appended.len() > 0 ==> appended[0].hitbox[1].max == last.hitbox[1].min
                - draws.gap
        }),
{
    let tile_size = platform_world_size(scale_factor);
    let height = difficulty.platform_height as int;
    assert(8_000 <= tile_size * height <= 640_000_000) by (nonlinear_arith)
        requires
            8_000 <= tile_size <= 80_000_000,
            1 <= height <= 8,
    ;
}

/// On an empty list a round that is due starts the level the same way whatever it
/// draws: the first platform sits on `FIRST_PLATFORM_SIDE`, its top edge at the height
/// of the sentinel's lower edge less the gap, which is a quarter of the window height;
/// it comes alone or with its partner.
pub proof fn lemma_first_platform(
    total: int,
    screen: ScreenInformation,
    difficulty: Difficulty,
    scale_factor: ScaleFactor,
    draws: SpawnDraws,
)
    requires
        screen.wf(),
        difficulty.wf(),
        scale_factor.wf(),
        scale_factor.current >= 1,
        draws.valid(difficulty, scale_factor),
        0 <= total <= u32::MAX,
    ensures
        ({
            let first_round = round_platforms(
                Seq::empty(),
                total,
                screen,
                difficulty,
                scale_factor,
                draws,
            );
            &&& first_round.len() > 0 <==> screen.window_height / 4 + draws.gap
                > screen.y_visible_area.min - 4 * draws.gap
            &&& first_round.len() <= 2
            &&& first_round.len() == 2 <==> first_round.len() > 0 && draws.double_sided
                < DOUBLE_SIDED_PLATFORM_CHANCE
            &&& first_round.len() > 0 ==> {
                &&& first_round[0].index == total
                &&& first_round[0].side == FIRST_PLATFORM_SIDE
                &&& first_round[0].hitbox[1].max == screen.window_height / 4
                &&& first_round[0].dimensions[1] == difficulty.platform_height
            }
        }),
{
    lemma_round_advances(Seq::empty(), total, screen, difficulty, scale_factor, draws);
}

/// Adds platforms below the last one until the list reaches slightly beyond the
/// visible area, and returns the platforms that were added, in order.
///
/// Each round draws its gap, and, if a platform is due for that gap, the variation of
/// its length and the number that decides whether it gets a partner. The result is the
/// outcome of some sequence of rounds with draws from their ranges; which one is for
/// chance to say.
pub fn spawn_platforms(
    screen_information: &ScreenInformation,
    platforms: &mut Platforms,
    difficulty: &Difficulty,
    scale_factor: &ScaleFactor,
) -> (spawned: Vec<Platform>)
    requires
        old(platforms).wf(),
        screen_information.wf(),
        difficulty.wf(),
        difficulty.platform_gap.min < difficulty.platform_gap.max,
        scale_factor.wf(),
        scale_factor.current >= 1,
    ensures
        final(platforms).wf(),
        final(platforms).platforms_vec@ == old(platforms).platforms_vec@ + spawned@,
        final(platforms).total_platforms == old(platforms).total_platforms + spawned.len(),
        exists|rounds: Seq<SpawnDraws>, closing_gap: int|
            generated_from(
                final(platforms).platforms_vec@,
                old(platforms).platforms_vec@,
                old(platforms).total_platforms as int,
                *screen_information,
                *difficulty,
                *scale_factor,
                rounds,
                closing_gap,
            ),
{
    let platform_sprites_per_player_sprite: i32 = tiles_per_player(scale_factor);
    let mut spawned: Vec<Platform> = Vec::new();
    let ghost mut rounds: Seq<SpawnDraws> = Seq::empty();
    let ghost mut closing_gap: int = 0;
    assert(platforms.platforms_vec@ + spawned@ =~= platforms.platforms_vec@);

    // Keep adding platforms until they fill slightly beyond the visible area.
    loop
        invariant
            platforms.wf(),
            screen_information.wf(),
            difficulty.wf(),
            difficulty.platform_gap.min < difficulty.platform_gap.max,
            scale_factor.wf(),
            scale_factor.current >= 1,
            platform_sprites_per_player_sprite == platform_length_variance(*scale_factor),
            platform_sprites_per_player_sprite == 4,
            platforms.platforms_vec@ == old(platforms).platforms_vec@ + spawned@,
            platforms.total_platforms == old(platforms).total_platforms + spawned.len(),
            forall|i: int|
                0 <= i < rounds.len() ==> (#[trigger] rounds[i]).valid(
                    *difficulty,
                    *scale_factor,
                ),
            platforms.platforms_vec@ == after_rounds(
                old(platforms).platforms_vec@,
                old(platforms).total_platforms as int,
                *screen_information,
                *difficulty,
                *scale_factor,
                rounds,
            ),
        ensures
            platforms.total_platforms > u32::MAX - 2 || {
                &&& difficulty.platform_gap.min <= closing_gap < difficulty.platform_gap.max
                &&& !frontier_short(
                    last_platform(platforms.platforms_vec@, *screen_information, closing_gap),
                    *screen_information,
                    closing_gap,
                )
            },
        decreases frontier_excess(platforms.platforms_vec@, *screen_information, *difficulty),
    {
        if platforms.total_platforms > u32::MAX - 2 {
            break;
        }
        let platform_gap: i64 = random_in(
            difficulty.platform_gap.min,
            difficulty.platform_gap.max,
        );
        let last_platform = last_or_sentinel(platforms, screen_information, platform_gap);

        // Only add a platform while the last one is close to the visible area.
        if !needs_platform(&last_platform, screen_information, platform_gap) {
            proof {
                closing_gap = platform_gap as int;
            }
            break;
        }
        let length: i64 = random_in(
            -(platform_sprites_per_player_sprite as i64),
            platform_sprites_per_player_sprite as i64,
        );
        let double_sided: i64 = random_in(0, 100);
        let draws = SpawnDraws { gap: platform_gap, length: length as i32, double_sided };

        let ghost list_before = platforms.platforms_vec@;
        proof {
            lemma_round_advances(
                list_before,
                platforms.total_platforms as int,
                *screen_information,
                *difficulty,
                *scale_factor,
                draws,
            );
        }
        let mut round = spawn_round(platforms, screen_information, difficulty, scale_factor, &draws);
        spawned.append(&mut round);
        proof {
            assert(rounds.push(draws).drop_last() =~= rounds);
            rounds = rounds.push(draws);
            assert(platforms.platforms_vec@ =~= old(platforms).platforms_vec@ + spawned@);
        }
    }
    proof {
        assert(generated_from(
            platforms.platforms_vec@,
            old(platforms).platforms_vec@,
            old(platforms).total_platforms as int,
            *screen_information,
            *difficulty,
            *scale_factor,
            rounds,
            closing_gap,
        ));
    }
    spawned
}

/// Along a well-formed list, which is what generation and pruning keep, each platform
/// sits on the wall opposite its predecessor, carries the next index, and does not end
/// above it.
pub proof fn lemma_sides_alternate(platforms: Platforms, i: int)
    requires
        platforms.wf(),
        0 <= i,
        i + 1 < platforms.platforms_vec@.len(),
    ensures
        platforms.platforms_vec@[i + 1].side == platforms.platforms_vec@[i].side.reverse(),
        platforms.platforms_vec@[i + 1].side != platforms.platforms_vec@[i].side,
        platforms.platforms_vec@[i + 1].index == platforms.platforms_vec@[i].index + 1,
        platforms.platforms_vec@[i + 1].hitbox[1].min <= platforms.platforms_vec@[i].hitbox[1].min,
{
    let list = platforms.platforms_vec@;
    assert(list[i + 1].side == list[i].side.reverse());
    assert(list[i + 1].hitbox[1].min <= list[i].hitbox[1].min);
}

/// A round that spawns a pair puts the two on opposite walls at the same height, and
/// their widths together with the opening of two plane widths between them make up the
/// width of the level in tiles exactly.
pub proof fn lemma_pair_fills_level(
    platforms: Seq<Platform>,
    total: int,
    screen: ScreenInformation,
    difficulty: Difficulty,
    scale_factor: ScaleFactor,
    draws: SpawnDraws,
)
    requires
        screen.wf(),
        difficulty.wf(),
        scale_factor.wf(),
        scale_factor.current >= 1,
        draws.valid(difficulty, scale_factor),
        round_platforms(platforms, total, screen, difficulty, scale_factor, draws).len() == 2,
    ensures
        ({
            let pair = round_platforms(
                platforms,
                total,
                screen,
                difficulty,
                scale_factor,
                draws,
            );
            let across = platforms_across_screen(screen, scale_factor);
            let variance = platform_length_variance(scale_factor);
            &&& pair[0].dimensions[0] + pair[1].dimensions[0] == across - 2 * variance
            &&& pair[0].dimensions[0] + pair[1].dimensions[0] + 2 * variance == across
            &&& pair[0].dimensions[0] == div_toward_zero(across, 2) + draws.length
            &&& pair[1].side == pair[0].side.reverse()
            &&& pair[1].dimensions[1] == pair[0].dimensions[1]
            &&& pair[1].hitbox[1] == pair[0].hitbox[1]
        }),
{
    lemma_length_variance(scale_factor);
}

/// On a screen as `update_screen_information` leaves it for a window, with sprites
/// scaled by one or more, the level is 32 platform tiles wide, whatever the window's
/// width.
pub proof fn lemma_level_is_32_tiles_wide(
    before: ScreenInformation,
    window_width: i64,
    window_height: i64,
    camera_y: Option<i64>,
    scale_factor: ScaleFactor,
)
    requires
        scale_factor.wf(),
        scale_factor.current >= 1,
        0 <= window_width <= crate::units::WINDOW_LIMIT,
    ensures
        platforms_across_screen(
            refreshed_screen(before, Some((window_width, window_height)), camera_y, scale_factor),
            scale_factor,
        ) == 32,
{
    let s = scale_factor.current as int;
    let level_width = 256_000 * s;
    let tile_size = 8_000 * s;
    assert(level_width == 32 * tile_size);
    let screen = refreshed_screen(
        before,
        Some((window_width, window_height)),
        camera_y,
        scale_factor,
    );
    let room = screen.window_width - screen.x_deadspace * 2;
    assert(level_width <= room <= level_width + 1);
    assert(room / tile_size == 32) by (nonlinear_arith)
        requires
            32 * tile_size <= room <= 32 * tile_size + 1,
            tile_size >= 8_000,
    ;
}

/// Where the level is 32 tiles wide, the two platforms of a pair leave an opening of at
/// least two plane widths between their inner ends, and each of them is at least five
/// tiles wide.
pub proof fn lemma_pair_leaves_an_opening(
    platforms: Seq<Platform>,
    total: int,
    screen: ScreenInformation,
    difficulty: Difficulty,
    scale_factor: ScaleFactor,
    draws: SpawnDraws,
)
    requires
        screen.wf(),
        difficulty.wf(),
        scale_factor.wf(),
        scale_factor.current >= 1,
        draws.valid(difficulty, scale_factor),
        platforms_across_screen(screen, scale_factor) == 32,
        round_platforms(platforms, total, screen, difficulty, scale_factor, draws).len() == 2,
    ensures
        ({
            let pair = round_platforms(
                platforms,
                total,
                screen,
                difficulty,
                scale_factor,
                draws,
            );
            let left = if pair[0].side == Direction::Left {
                pair[0]
            } else {
                pair[1]
            };
            let right = if pair[0].side == Direction::Left {
                pair[1]
            } else {
                pair[0]
            };
            &&& left.side == Direction::Left
            &&& right.side == Direction::Right
            &&& 5 <= pair[0].dimensions[0] <= 19
            &&& 5 <= pair[1].dimensions[0] <= 19
            &&& left.hitbox[0].min == screen.x_deadspace
            &&& right.hitbox[0].max == screen.window_width - screen.x_deadspace
            &&& right.hitbox[0].min - left.hitbox[0].max >= 2 * (art::PLAYER_SPRITE_SIZE
                * scale_factor.current)
        }),
{
    lemma_length_variance(scale_factor);
    lemma_pair_fills_level(platforms, total, screen, difficulty, scale_factor, draws);
    let s = scale_factor.current as int;
    let tile_size = platform_world_size(scale_factor);
    assert(tile_size == 8_000 * s);
    let pair = round_platforms(platforms, total, screen, difficulty, scale_factor, draws);
    let first_width = pair[0].dimensions[0] as int;
    let second_width = pair[1].dimensions[0] as int;
    assert(12 <= first_width <= 19);
    assert(first_width + second_width == 24);
    let room = screen.window_width - screen.x_deadspace * 2;
    assert(room >= 32 * tile_size) by (nonlinear_arith)
        requires
            crate::units::div_toward_zero(room, tile_size) == 32,
            tile_size >= 8_000,
    ;
    assert(first_width * tile_size + second_width * tile_size == 24 * tile_size)
        by (nonlinear_arith)
        requires
            first_width + second_width == 24,
    ;
    assert(0 <= first_width * tile_size && 0 <= second_width * tile_size) by (nonlinear_arith)
        requires
            0 <= first_width,
            0 <= second_width,
            0 <= tile_size,
    ;
    assert(first_width * tile_size <= 19 * 80_000_000 && second_width * tile_size <= 19
        * 80_000_000) by (nonlinear_arith)
        requires
            0 <= first_width <= 19,
            0 <= second_width <= 19,
            0 <= tile_size <= 80_000_000,
    ;
}

} // verus!
