//! The plane: its heading, its speed and its movement.
//!
//! Angles are whole microradians, measured from straight down, negative to the left.
//! Time steps are whole microseconds.

use vstd::prelude::*;
use crate::art;
use crate::game::sprite_scaler::ScaleFactor;
use crate::game::{Difficulty, Vector2};
use crate::generic::{reverse_index, spec_map, spec_reverse_index, Direction, Range, ScreenInformation};
use crate::units::{div_toward_zero, WORLD_LIMIT};

verus! {

/// The direction the plane starts out toward, with its back against the other wall.
pub const START_DIRECTION: Direction = Direction::Right;

/// How fast the plane turns while a steering key is held: microradians per
/// microsecond, which is radians per second.
pub const AUTO_MOVE_AV: i64 = 6;

/// A quarter turn, the furthest the plane can point to either side.
pub const ANGLE_LIMIT: i64 = 1_570_796;

/// How many microseconds make a second.
pub const MICROS_PER_SECOND: i64 = 1_000_000;

/// Longest time step that the rules are stated for: an hour.
pub const TICK_LIMIT: i64 = 3_600_000_000;

/// The plane.
#[derive(Debug, Clone, Copy, PartialEq, Eq)]
pub struct Player {
    /// Speed across and down, per second.
    pub speed: Vector2,
    /// The side the plane is pointing to.
    pub facing: Direction,
    /// The angle between straight down and the plane's heading.
    pub angle_rad: i64,
}

/// The steering keys as they stand in one tick.
#[derive(Debug, Clone, Copy, PartialEq, Eq, Structural)]
pub struct Steering {
    pub right_just_pressed: bool,
    pub left_just_pressed: bool,
    pub right_pressed: bool,
    pub left_pressed: bool,
}

/// What the plane's sprite is to show.
#[derive(Debug, Clone, Copy, PartialEq, Eq)]
pub struct Heading {
    /// Frame of the sprite sheet.
    pub sprite_index: usize,
    /// Whether to mirror the sprite, where the heading decides it; `None` leaves the
    /// sprite as it is.
    pub flip_x: Option<bool>,
}

impl Player {
    /// The angle is within a quarter turn either way and no speed is negative or
    /// beyond the limit.
    pub open spec fn wf(&self) -> bool {
        &&& -ANGLE_LIMIT <= self.angle_rad <= ANGLE_LIMIT
        &&& 0 <= self.speed.x <= WORLD_LIMIT
        &&& 0 <= self.speed.y <= WORLD_LIMIT
    }

    /// Tests `wf` at run time.
    pub fn is_wf(&self) -> (ok: bool)
        ensures
            ok == self.wf(),
    {
        -ANGLE_LIMIT <= self.angle_rad && self.angle_rad <= ANGLE_LIMIT && 0 <= self.speed.x
            && self.speed.x <= WORLD_LIMIT && 0 <= self.speed.y && self.speed.y <= WORLD_LIMIT
    }
}

/// The least and the largest angle of the plane.
pub open spec fn spec_angle_range_rad() -> Range<i64> {
    Range { min: (-ANGLE_LIMIT) as i64, max: ANGLE_LIMIT }
}

/// The least and the largest angle of the plane.
#[verifier::when_used_as_spec(spec_angle_range_rad)]
pub fn angle_range_rad() -> (range: Range<i64>)
    ensures
        range == spec_angle_range_rad(),
{
    Range { min: -ANGLE_LIMIT, max: ANGLE_LIMIT }
}

/// The angle between the headings of two neighbouring frames of the sprite sheet.
pub open spec fn rad_per_sprite() -> int {
    (ANGLE_LIMIT as int) / (art::PLAYER_SPRITESHEET_INDICES as int)
}

/// `angle` held within a quarter turn either way.
pub open spec fn clamped_angle(angle: int) -> int {
    if angle < -ANGLE_LIMIT {
        -ANGLE_LIMIT as int
    } else if angle > ANGLE_LIMIT {
        ANGLE_LIMIT as int
    } else {
        angle
    }
}

/// The plane's angle after a tick of steering.
///
/// A fresh key press first snaps the angle to the heading of the frame next to the
/// one shown, on the side of the key; a press to the left wins over one to the right.
/// A held key then turns the plane by `AUTO_MOVE_AV` for the length of the tick. The
/// result is held within a quarter turn either way.
pub open spec fn steered_angle(
    player: Player,
    sprite_index: usize,
    steering: Steering,
    delta_micros: int,
) -> int {
    let shown = spec_reverse_index(sprite_index, art::PLAYER_SPRITESHEET_INDICES)
        * rad_per_sprite() * player.facing.to_x();
    let snapped_right = if steering.right_just_pressed {
        shown + rad_per_sprite()
    } else {
        player.angle_rad as int
    };
    let snapped = if steering.left_just_pressed {
        shown - rad_per_sprite()
    } else {
        snapped_right
    };
    let turned_right = if steering.right_pressed {
        snapped + AUTO_MOVE_AV * delta_micros
    } else {
        snapped
    };
    let turned = if steering.left_pressed {
        turned_right - AUTO_MOVE_AV * delta_micros
    } else {
        turned_right
    };
    clamped_angle(turned)
}

/// Changes the plane's angle with the steering keys.
pub fn change_angle(
    player: &mut Player,
    sprite_index: usize,
    steering: &Steering,
    delta_micros: i64,
)
    requires
        old(player).wf(),
        sprite_index < art::PLAYER_SPRITESHEET_INDICES,
        0 <= delta_micros <= TICK_LIMIT,
    ensures
        final(player).angle_rad == steered_angle(
            *old(player),
            sprite_index,
            *steering,
            delta_micros as int,
        ),
        final(player).speed == old(player).speed,
        final(player).facing == old(player).facing,
        final(player).wf(),
{
    let rad_per_sprite: i64 = ANGLE_LIMIT / (art::PLAYER_SPRITESHEET_INDICES as i64);
    let reversed: i64 = reverse_index(sprite_index, art::PLAYER_SPRITESHEET_INDICES) as i64;
    assert(0 <= reversed * rad_per_sprite <= 5 * 261_799) by (nonlinear_arith)
        requires
            0 <= reversed <= 5,
            rad_per_sprite == 261_799,
    ;
    assert(reversed * rad_per_sprite * player.facing.to_x() == if player.facing
        == Direction::Left {
        -(reversed * rad_per_sprite)
    } else {
        reversed * rad_per_sprite
    }) by (nonlinear_arith)
        requires
            player.facing.to_x() == (if player.facing == Direction::Left {
                -1i64
            } else {
                1i64
            }),
    ;
    let rad_from_sprite_index: i64 = reversed * rad_per_sprite * player.facing.to_x();

    // A fresh press jumps to the next heading that has a frame of its own, so that the
    // plane answers at once.
    if steering.right_just_pressed {
        player.angle_rad = rad_from_sprite_index + rad_per_sprite;
    }
    if steering.left_just_pressed {
        player.angle_rad = rad_from_sprite_index - rad_per_sprite;
    }

    // A held key keeps turning the plane.
    if steering.right_pressed {
        player.angle_rad += AUTO_MOVE_AV * delta_micros;
    }
    if steering.left_pressed {
        player.angle_rad -= AUTO_MOVE_AV * delta_micros;
    }

    if player.angle_rad < -ANGLE_LIMIT {
        player.angle_rad = -ANGLE_LIMIT;
    }
    if player.angle_rad > ANGLE_LIMIT {
        player.angle_rad = ANGLE_LIMIT;
    }
}

/// How far sideways a heading of `angle_rad` points, in frames: the angle's size mapped
/// from `0..=ANGLE_LIMIT` onto the frames, zero for straight down.
pub open spec fn sideways_index(angle_rad: i64) -> int {
    spec_map(
        (if angle_rad < 0 {
            -angle_rad
        } else {
            angle_rad as int
        }) as i64,
        spec_angle_range_rad().truncate(),
        Range { min: 0, max: (art::PLAYER_SPRITESHEET_INDICES - 1) as i64 },
    )
}

/// What the sprite shows for a heading, and the side the plane then faces.
///
/// The frame is `sideways_index` counted from the other end of the sheet. Unless that
/// index is zero, the sprite is mirrored exactly when the angle is negative, and the
/// plane faces left then and right otherwise. At index zero side and mirroring stay.
pub open spec fn heading_of(player: Player) -> (Heading, Direction) {
    let index = sideways_index(player.angle_rad);
    let sprite_index = spec_reverse_index(index as usize, art::PLAYER_SPRITESHEET_INDICES) as usize;
    if index != 0 {
        if player.angle_rad < 0 {
            (Heading { sprite_index, flip_x: Some(true) }, Direction::Left)
        } else {
            (Heading { sprite_index, flip_x: Some(false) }, Direction::Right)
        }
    } else {
        (Heading { sprite_index, flip_x: None }, player.facing)
    }
}

/// The frame index of every heading within a quarter turn lies on the sprite sheet.
pub proof fn lemma_sideways_index_in_range(angle_rad: i64)
    requires
        -ANGLE_LIMIT <= angle_rad <= ANGLE_LIMIT,
    ensures
        0 <= sideways_index(angle_rad) <= art::PLAYER_SPRITESHEET_INDICES - 1,
        sideways_index(angle_rad) == (5 * (if angle_rad < 0 {
            -angle_rad
        } else {
            angle_rad as int
        })) / (ANGLE_LIMIT as int),
{
}

/// Sets the frame of the plane's sprite and the side it faces from its angle.
pub fn set_player_heading(player: &mut Player) -> (heading: Heading)
    requires
        old(player).wf(),
    ensures
        heading == heading_of(*old(player)).0,
        heading.sprite_index < art::PLAYER_SPRITESHEET_INDICES,
        final(player).facing == heading_of(*old(player)).1,
        final(player).angle_rad == old(player).angle_rad,
        final(player).speed == old(player).speed,
        final(player).wf(),
{
    proof {
        lemma_sideways_index_in_range(player.angle_rad);
    }
    let angle: i64 = if player.angle_rad < 0 {
        -player.angle_rad
    } else {
        player.angle_rad
    };
    let sprite_sheet_index: i64 = crate::generic::map(
        angle,
        angle_range_rad().truncate(),
        Range { min: 0, max: (art::PLAYER_SPRITESHEET_INDICES - 1) as i64 },
    );

    // The sheet counts the other way: its index falls as the angle grows.
    let sprite_index = reverse_index(
        sprite_sheet_index as usize,
        art::PLAYER_SPRITESHEET_INDICES,
    );

    // The sprite is mirrored once the plane points left of straight down. Pointing
    // straight down it keeps its side, so the middle frame shows for twice as long as
    // the others, which makes it easier to stop there.
    let mut flip_x: Option<bool> = None;
    if sprite_sheet_index != 0 {
        if player.angle_rad < 0 {
            flip_x = Some(true);
            player.facing = Direction::Left;
        } else {
            flip_x = Some(false);
            player.facing = Direction::Right;
        }
    }
    Heading { sprite_index, flip_x }
}

/// The plane's speed for a frame of its sprite: across, a fifth of the top speed,
/// rounded down, for each frame away from the last; down, a sixth of the top speed,
/// rounded down, for each frame up to and including the one shown.
pub open spec fn speed_for_sprite(sprite_index: usize, difficulty: Difficulty) -> Vector2 {
    Vector2 {
        x: ((difficulty.player_max_speed.x / (art::PLAYER_SPRITESHEET_INDICES - 1) as i64)
            * spec_reverse_index(sprite_index, art::PLAYER_SPRITESHEET_INDICES)) as i64,
        y: ((difficulty.player_max_speed.y / art::PLAYER_SPRITESHEET_INDICES as i64) * (
        sprite_index + 1)) as i64,
    }
}

/// Calculates the plane's speed from the frame its sprite shows.
pub fn calculate_speed(player: &mut Player, sprite_index: usize, difficulty: &Difficulty)
    requires
        sprite_index < art::PLAYER_SPRITESHEET_INDICES,
        difficulty.wf(),
    ensures
        final(player).speed == speed_for_sprite(sprite_index, *difficulty),
        0 <= final(player).speed.x <= difficulty.player_max_speed.x,
        0 <= final(player).speed.y <= difficulty.player_max_speed.y,
        final(player).facing == old(player).facing,
        final(player).angle_rad == old(player).angle_rad,
{
    // How much the speed changes from one frame to the next.
    let speed_steps = Vector2 {
        x: difficulty.player_max_speed.x / (art::PLAYER_SPRITESHEET_INDICES - 1) as i64,
        y: difficulty.player_max_speed.y / art::PLAYER_SPRITESHEET_INDICES as i64,
    };
    let reversed: i64 = reverse_index(sprite_index, art::PLAYER_SPRITESHEET_INDICES) as i64;
    let shown: i64 = (sprite_index + 1) as i64;
    assert(0 <= speed_steps.x * reversed <= difficulty.player_max_speed.x) by (nonlinear_arith)
        requires
            0 <= reversed <= 5,
            0 <= difficulty.player_max_speed.x,
            speed_steps.x == difficulty.player_max_speed.x / 5,
    ;
    assert(0 <= speed_steps.y * shown <= difficulty.player_max_speed.y) by (nonlinear_arith)
        requires
            1 <= shown <= 6,
            0 <= difficulty.player_max_speed.y,
            speed_steps.y == difficulty.player_max_speed.y / 6,
    ;

    // The last frame points straight down: the lower the frame, the faster across and
    // the slower down.
    player.speed = Vector2 { x: speed_steps.x * reversed, y: speed_steps.y * shown };
}

/// How far something moves in `delta_micros` at `speed` per second, rounded toward
/// zero.
pub open spec fn distance_moved(speed: int, delta_micros: int) -> int {
    div_toward_zero(speed * delta_micros, MICROS_PER_SECOND as int)
}

/// Where the plane is after a tick: moved across by its speed toward the side it
/// faces, and down by its speed.
pub open spec fn moved(translation: Vector2, player: Player, delta_micros: int) -> Vector2 {
    Vector2 {
        x: (translation.x + distance_moved(
            player.speed.x * player.facing.to_x(),
            delta_micros,
        )) as i64,
        y: (translation.y - distance_moved(player.speed.y as int, delta_micros)) as i64,
    }
}

/// Whether the plane can make its move from `translation` without leaving the range
/// of positions: the test that `move_player` asks of its caller.
pub fn movement_fits(translation: &Vector2, player: &Player, delta_micros: i64) -> (fits: bool)
    requires
        player.wf(),
        0 <= delta_micros <= TICK_LIMIT,
    ensures
        fits == {
            &&& i64::MIN <= translation.x + distance_moved(
                player.speed.x * player.facing.to_x(),
                delta_micros as int,
            ) <= i64::MAX
            &&& i64::MIN <= translation.y - distance_moved(
                player.speed.y as int,
                delta_micros as int,
            ) <= i64::MAX
        },
{
    let signed_speed: i64 = player.speed.x * player.facing.to_x();
    assert(-360_000_000_000_000_000_000_000_000 <= signed_speed * delta_micros
        <= 360_000_000_000_000_000_000_000_000) by (nonlinear_arith)
        requires
            -WORLD_LIMIT <= signed_speed <= WORLD_LIMIT,
            0 <= delta_micros <= TICK_LIMIT,
    ;
    assert(0 <= player.speed.y * delta_micros <= 360_000_000_000_000_000_000_000_000)
        by (nonlinear_arith)
        requires
            0 <= player.speed.y <= WORLD_LIMIT,
            0 <= delta_micros <= TICK_LIMIT,
    ;
    let across: i128 = ((signed_speed as i128) * (delta_micros as i128)) / (
    MICROS_PER_SECOND as i128);
    let down: i128 = ((player.speed.y as i128) * (delta_micros as i128)) / (
    MICROS_PER_SECOND as i128);
    let x: i128 = (translation.x as i128) + across;
    let y: i128 = (translation.y as i128) - down;
    (i64::MIN as i128) <= x && x <= (i64::MAX as i128) && (i64::MIN as i128) <= y && y <= (
    i64::MAX as i128)
}

/// Moves the plane according to its speed.
pub fn move_player(translation: &mut Vector2, player: &Player, delta_micros: i64)
    requires
        player.wf(),
        0 <= delta_micros <= TICK_LIMIT,
        i64::MIN <= old(translation).x + distance_moved(
            player.speed.x * player.facing.to_x(),
            delta_micros as int,
        ) <= i64::MAX,
        i64::MIN <= old(translation).y - distance_moved(
            player.speed.y as int,
            delta_micros as int,
        ) <= i64::MAX,
    ensures
        *final(translation) == moved(*old(translation), *player, delta_micros as int),
{
    let signed_speed: i64 = player.speed.x * player.facing.to_x();
    assert(-360_000_000_000_000_000_000_000_000 <= signed_speed * delta_micros
        <= 360_000_000_000_000_000_000_000_000) by (nonlinear_arith)
        requires
            -WORLD_LIMIT <= signed_speed <= WORLD_LIMIT,
            0 <= delta_micros <= TICK_LIMIT,
    ;
    assert(0 <= player.speed.y * delta_micros <= 360_000_000_000_000_000_000_000_000)
        by (nonlinear_arith)
        requires
            0 <= player.speed.y <= WORLD_LIMIT,
            0 <= delta_micros <= TICK_LIMIT,
    ;
    let across: i128 = ((signed_speed as i128) * (delta_micros as i128)) / (
    MICROS_PER_SECOND as i128);
    let down: i128 = ((player.speed.y as i128) * (delta_micros as i128)) / (
    MICROS_PER_SECOND as i128);
    translation.x = ((translation.x as i128) + across) as i64;
    translation.y = ((translation.y as i128) - down) as i64;
}

/// The plane as it enters the game, and where: with its back against the wall
/// opposite `START_DIRECTION`, half way up the window, at rest, turned fully toward
/// `START_DIRECTION`.
pub open spec fn start_player(
    screen: ScreenInformation,
    scale_factor: ScaleFactor,
) -> (Player, Vector2) {
    let player_world_width = art::PLAYER_SPRITE_SIZE * scale_factor.current;
    (
        Player {
            speed: Vector2 { x: 0, y: 0 },
            facing: START_DIRECTION.reverse(),
            angle_rad: match START_DIRECTION {
                Direction::Left => (-ANGLE_LIMIT) as i64,
                Direction::Right => ANGLE_LIMIT,
            },
        },
        Vector2 {
            x: (match START_DIRECTION {
                Direction::Left => screen.window_width - screen.x_deadspace - player_world_width
                    / 2,
                Direction::Right => screen.x_deadspace + player_world_width / 2,
            }) as i64,
            y: (screen.window_height / 2) as i64,
        },
    )
}

/// Makes the plane for a new game and says where to put it.
pub fn spawn_player(screen_information: &ScreenInformation, scale_factor: &ScaleFactor) -> (spawn:
    (Player, Vector2))
    requires
        screen_information.wf(),
        scale_factor.wf(),
    ensures
        spawn == start_player(*screen_information, *scale_factor),
        spawn.0.wf(),
{
    let player_world_width: i64 = art::PLAYER_SPRITE_SIZE * scale_factor.current;
    let player_spawn_x: i64 = match START_DIRECTION {
        Direction::Left => screen_information.window_width - screen_information.x_deadspace
            - player_world_width / 2,
        Direction::Right => screen_information.x_deadspace + player_world_width / 2,
    };
    (
        Player {
            speed: Vector2 { x: 0, y: 0 },
            facing: START_DIRECTION.reverse(),
            angle_rad: match START_DIRECTION {
                Direction::Left => -ANGLE_LIMIT,
                Direction::Right => ANGLE_LIMIT,
            },
        },
        Vector2 { x: player_spawn_x, y: screen_information.window_height / 2 },
    )
}

/// The frame of the crash animation that follows `sprite_index`, or `None` when that
/// was the last one and the animation is over.
pub fn animate_death(sprite_index: usize) -> (next: Option<usize>)
    requires
        sprite_index < usize::MAX,
    ensures
        next == if sprite_index + 1 == art::DEATH_SPRITESHEET_INDICES {
            None
        } else {
            Some((sprite_index + 1) as usize)
        },
{
    let new_sprite_index = sprite_index + 1;
    if new_sprite_index == art::DEATH_SPRITE_SHEET_COLUMNS * art::DEATH_SPRITE_SHEET_ROWS {
        None
    } else {
        Some(new_sprite_index)
    }
}

} // verus!
