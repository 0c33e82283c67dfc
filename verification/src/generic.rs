//! Directions, intervals and the screen model.

use vstd::prelude::*;
use crate::art;
use crate::game::background::LEVEL_TILE_WIDTH;
use crate::game::sprite_scaler::ScaleFactor;
use crate::units::{div_toward_zero, WINDOW_LIMIT, WORLD_LIMIT};

verus! {

/// One of the two horizontal directions; also names the screen edge on that side.
#[derive(PartialEq, Eq, Structural, Debug, Copy, Clone)]
pub enum Direction {
    Left,
    Right,
}

impl Direction {
    /// The other direction.
    pub open spec fn spec_reverse(&self) -> Direction {
        match self {
            Direction::Left => Direction::Right,
            Direction::Right => Direction::Left,
        }
    }

    /// The sign of a step in this direction along the x axis.
    pub open spec fn spec_to_x(&self) -> i64 {
        match self {
            Direction::Left => -1i64,
            Direction::Right => 1i64,
        }
    }

    /// The direction that a draw of 0 or 1 stands for.
    pub open spec fn spec_from_draw(draw: i64) -> Direction {
        if draw == 0 {
            Direction::Left
        } else {
            Direction::Right
        }
    }

    /// Turns a draw from `0..2` into a direction: 0 is left, anything else right.
    #[verifier::when_used_as_spec(spec_from_draw)]
    pub fn from_draw(draw: i64) -> (direction: Direction)
        ensures
            direction == Direction::spec_from_draw(draw),
    {
        if draw == 0 {
            Direction::Left
        } else {
            Direction::Right
        }
    }

    /// Picks a direction by chance. Either may come back, so the contract only ties the
    /// result to the draw that `from_draw` explains.
    pub fn random() -> (direction: Direction)
        ensures
            exists|draw: i64| 0 <= draw < 2 && direction == Direction::spec_from_draw(draw),
    {
        let draw: i64 = crate::random::random_in(0, 2);
        Direction::from_draw(draw)
    }

    /// The other direction.
    #[verifier::when_used_as_spec(spec_reverse)]
    pub fn reverse(&self) -> (reversed: Direction)
        ensures
            reversed == self.spec_reverse(),
    {
        match self {
            Direction::Left => Direction::Right,
            Direction::Right => Direction::Left,
        }
    }

    /// The sign of a step in this direction along the x axis: -1 to the left, 1 to
    /// the right.
    #[verifier::when_used_as_spec(spec_to_x)]
    pub fn to_x(&self) -> (x: i64)
        ensures
            x == self.spec_to_x(),
    {
        match self {
            Direction::Left => -1,
            Direction::Right => 1,
        }
    }
}

/// Reversing a direction twice gives it back, and reversing flips the sign of its step.
pub proof fn lemma_reverse_involution(direction: Direction)
    ensures
        direction.reverse().reverse() == direction,
        direction.reverse() != direction,
        direction.reverse().to_x() == -direction.to_x(),
{
}

/// A closed interval `[min, max]` on one axis.
#[derive(Debug, Clone, Copy, PartialEq, Eq, PartialOrd, Ord)]
pub struct Range<T> {
    pub min: T,
    pub max: T,
}

impl Range<i64> {
    /// `min` does not exceed `max`.
    pub open spec fn normalized(&self) -> bool {
        self.min <= self.max
    }

    /// The interval with a negative lower end raised to zero.
    pub open spec fn spec_truncate(self) -> Range<i64> {
        if self.min < 0 {
            Range { min: 0, max: self.max }
        } else {
            self
        }
    }

    /// The interval shifted so that it starts at zero.
    pub open spec fn spec_zero(self) -> Range<i64> {
        Range { min: 0, max: (self.max - self.min) as i64 }
    }

    /// The interval that holds zero and nothing else.
    pub fn new() -> (range: Range<i64>)
        ensures
            range == (Range::<i64> { min: 0, max: 0 }),
    {
        Range { min: 0, max: 0 }
    }

    /// Sets the lower end to zero when it is negative.
    #[verifier::when_used_as_spec(spec_truncate)]
    pub fn truncate(self) -> (truncated: Range<i64>)
        ensures
            truncated == self.spec_truncate(),
    {
        if self.min < 0 {
            return Range { min: 0, max: self.max };
        }
        self
    }

    /// Shifts both ends so that the lower end is zero: `[-1, 1]` becomes `[0, 2]`.
    #[verifier::when_used_as_spec(spec_zero)]
    pub fn zero(self) -> (zeroed: Range<i64>)
        requires
            i64::MIN <= self.max - self.min <= i64::MAX,
        ensures
            zeroed == self.spec_zero(),
            zeroed.min == 0,
            zeroed.max == self.max - self.min,
    {
        if self.min == 0 {
            return self;
        }
        Range { min: 0, max: self.max - self.min }
    }
}

/// What the rules know about the window and the part of the world it shows.
#[derive(Debug, Clone, Copy, PartialEq, Eq)]
pub struct ScreenInformation {
    /// Width of the margin between a window edge and the level's wall on that side.
    pub x_deadspace: i64,
    /// The world heights that are on screen.
    pub y_visible_area: Range<i64>,
    pub window_width: i64,
    pub window_height: i64,
}

impl ScreenInformation {
    /// Window sizes are non-negative and every field is within the supported range.
    pub open spec fn wf(&self) -> bool {
        &&& 0 <= self.window_width <= WINDOW_LIMIT
        &&& 0 <= self.window_height <= WINDOW_LIMIT
        &&& -WORLD_LIMIT <= self.x_deadspace <= WORLD_LIMIT
        &&& -WORLD_LIMIT <= self.y_visible_area.min <= WORLD_LIMIT
        &&& -WORLD_LIMIT <= self.y_visible_area.max <= WORLD_LIMIT
    }

    /// Tests `wf` at run time.
    pub fn is_wf(&self) -> (ok: bool)
        ensures
            ok == self.wf(),
    {
        0 <= self.window_width && self.window_width <= WINDOW_LIMIT && 0 <= self.window_height
            && self.window_height <= WINDOW_LIMIT && -WORLD_LIMIT <= self.x_deadspace
            && self.x_deadspace <= WORLD_LIMIT && -WORLD_LIMIT <= self.y_visible_area.min
            && self.y_visible_area.min <= WORLD_LIMIT && -WORLD_LIMIT <= self.y_visible_area.max
            && self.y_visible_area.max <= WORLD_LIMIT
    }

    /// The x coordinate of the level's wall on the given side.
    pub open spec fn wall_x(&self, side: Direction) -> int {
        match side {
            Direction::Left => self.x_deadspace as int,
            Direction::Right => self.window_width - self.x_deadspace,
        }
    }

    /// The screen before any window is known: everything zero.
    pub fn new() -> (screen: ScreenInformation)
        ensures
            screen == (ScreenInformation {
                x_deadspace: 0,
                y_visible_area: Range { min: 0, max: 0 },
                window_width: 0,
                window_height: 0,
            }),
            screen.wf(),
    {
        ScreenInformation {
            x_deadspace: 0,
            y_visible_area: Range { min: 0, max: 0 },
            window_width: 0,
            window_height: 0,
        }
    }
}

/// The world heights on screen when the camera is centred on `camera_y`.
pub open spec fn visible_y_area(window_height: int, camera_y: int) -> Range<i64> {
    Range {
        min: (camera_y - div_toward_zero(window_height, 2)) as i64,
        max: (camera_y + div_toward_zero(window_height, 2)) as i64,
    }
}

/// The margin left on each side when `LEVEL_TILE_WIDTH` walls of the given width are
/// centred in the window: half of what the walls leave of the window's width, rounded
/// down. Negative when the level is wider than the window.
pub open spec fn screen_deadspace(window_width: int, wall_world_width: int) -> int {
    (window_width - LEVEL_TILE_WIDTH * wall_world_width) / 2
}

/// The screen after a refresh. Without a window nothing changes; without a camera the
/// visible area is the window itself.
pub open spec fn refreshed_screen(
    screen: ScreenInformation,
    window: Option<(i64, i64)>,
    camera_y: Option<i64>,
    scale_factor: ScaleFactor,
) -> ScreenInformation {
    match window {
        Some((width, height)) => ScreenInformation {
            x_deadspace: screen_deadspace(
                width as int,
                art::WALL_SPRITE_SIZE * scale_factor.current,
            ) as i64,
            y_visible_area: match camera_y {
                Some(y) => visible_y_area(height as int, y as int),
                None => Range { min: 0, max: height },
            },
            window_width: width,
            window_height: height,
        },
        None => screen,
    }
}

/// Calculates the lowest and highest world height on the screen.
pub fn calculate_visible_y_area(window_height: i64, camera_y: i64) -> (area: Range<i64>)
    requires
        i64::MIN <= camera_y - div_toward_zero(window_height as int, 2) <= i64::MAX,
        i64::MIN <= camera_y + div_toward_zero(window_height as int, 2) <= i64::MAX,
    ensures
        area == visible_y_area(window_height as int, camera_y as int),
        area.min == camera_y - div_toward_zero(window_height as int, 2),
        area.max == camera_y + div_toward_zero(window_height as int, 2),
{
    let half_window_height: i64 = window_height / 2;
    Range { min: camera_y - half_window_height, max: camera_y + half_window_height }
}

/// Calculates the distance between the level's walls and the edges of the window.
pub fn calculate_screen_deadspace(window_width: i64, wall_world_width: i64) -> (deadspace: i64)
    requires
        i64::MIN <= window_width - LEVEL_TILE_WIDTH * wall_world_width <= i64::MAX,
        i64::MIN <= LEVEL_TILE_WIDTH * wall_world_width <= i64::MAX,
    ensures
        deadspace == screen_deadspace(window_width as int, wall_world_width as int),
{
    let room: i64 = window_width - (LEVEL_TILE_WIDTH as i64) * wall_world_width;
    if room >= 0 {
        room / 2
    } else {
        // Rounds down, as for a window wider than the level.
        -((-(room + 1)) / 2) - 1
    }
}

/// Refreshes the screen model from the window's size and the camera's height, as they
/// are at the start of a tick. `window` is `(width, height)`.
pub fn update_screen_information(
    screen_information: &mut ScreenInformation,
    window: Option<(i64, i64)>,
    camera_y: Option<i64>,
    scale_factor: &ScaleFactor,
)
    requires
        scale_factor.wf(),
        window matches Some((width, height)) ==> 0 <= width <= WINDOW_LIMIT && 0 <= height
            <= WINDOW_LIMIT,
        camera_y matches Some(y) ==> -WORLD_LIMIT + WINDOW_LIMIT <= y <= WORLD_LIMIT
            - WINDOW_LIMIT,
    ensures
        *final(screen_information) == refreshed_screen(
            *old(screen_information),
            window,
            camera_y,
            *scale_factor,
        ),
        window.is_some() || old(screen_information).wf() ==> final(screen_information).wf(),
{
    if let Some((width, height)) = window {
        screen_information.window_width = width;
        screen_information.window_height = height;

        let wall_world_width: i64 = art::WALL_SPRITE_SIZE * scale_factor.current;
        screen_information.x_deadspace = calculate_screen_deadspace(width, wall_world_width);

        if let Some(y) = camera_y {
            screen_information.y_visible_area = calculate_visible_y_area(height, y);
        } else {
            screen_information.y_visible_area = Range { min: 0, max: height };
        }
    }
}

/// Where `input`, taken relative to `input_range`, falls in `output_range`.
///
/// The input's offset from the lower end of `input_range` is stretched by the ratio of
/// the two interval lengths, rounded toward zero, and then moved by the lower end of
/// `output_range`: added when that end is negative, subtracted when it is positive.
pub open spec fn spec_map(input: i64, input_range: Range<i64>, output_range: Range<i64>) -> int {
    let input_length = if input_range.max >= input_range.min {
        input_range.max - input_range.min
    } else {
        input_range.min - input_range.max
    };
    let unadjusted = div_toward_zero(
        (output_range.max - output_range.min) * (input - input_range.min),
        input_length,
    );
    if output_range.min < 0 {
        unadjusted + output_range.min
    } else if output_range.min > 0 {
        unadjusted - output_range.min
    } else {
        unadjusted
    }
}

/// All three arguments of `map` lie within the supported range.
pub open spec fn mappable(input: i64, input_range: Range<i64>, output_range: Range<i64>) -> bool {
    &&& -WORLD_LIMIT <= input <= WORLD_LIMIT
    &&& -WORLD_LIMIT <= input_range.min <= WORLD_LIMIT
    &&& -WORLD_LIMIT <= input_range.max <= WORLD_LIMIT
    &&& -WORLD_LIMIT <= output_range.min <= WORLD_LIMIT
    &&& -WORLD_LIMIT <= output_range.max <= WORLD_LIMIT
}

/// Maps an input that can be within `input_range` to an output within `output_range`.
pub fn map(input: i64, input_range: Range<i64>, output_range: Range<i64>) -> (output: i64)
    requires
        input_range.min != input_range.max,
        mappable(input, input_range, output_range),
        i64::MIN <= spec_map(input, input_range, output_range) <= i64::MAX,
    ensures
        output == spec_map(input, input_range, output_range),
{
    let input_range_zeroed = input_range.zero();
    let output_range_zeroed = output_range.zero();

    let input_adjusted: i64 = input - input_range.min;
    let input_length: i64 = if input_range_zeroed.max < 0 {
        -input_range_zeroed.max
    } else {
        input_range_zeroed.max
    };

    assert(-(4 * WORLD_LIMIT * WORLD_LIMIT) <= (output_range_zeroed.max as int) * (
    input_adjusted as int) <= 4 * WORLD_LIMIT * WORLD_LIMIT) by (nonlinear_arith)
        requires
            -2 * WORLD_LIMIT <= output_range_zeroed.max <= 2 * WORLD_LIMIT,
            -2 * WORLD_LIMIT <= input_adjusted <= 2 * WORLD_LIMIT,
    ;
    let stretched: i128 = (output_range_zeroed.max as i128) * (input_adjusted as i128);
    let output_unadjusted: i128 = stretched / (input_length as i128);

    let adjusted: i128 = if output_range.min < 0 {
        output_unadjusted + (output_range.min as i128)
    } else if output_range.min > 0 {
        output_unadjusted - (output_range.min as i128)
    } else {
        output_unadjusted
    };
    adjusted as i64
}

/// The distance between `index` and the last of `indices` positions.
pub open spec fn spec_reverse_index(index: usize, indices: usize) -> int {
    if index >= indices - 1 {
        index - (indices - 1)
    } else {
        (indices - 1) - index
    }
}

/// The position of `index` counted from the other end of `indices` positions: the
/// distance between `index` and the last position.
pub fn reverse_index(index: usize, indices: usize) -> (reversed: usize)
    requires
        indices >= 1,
    ensures
        reversed == spec_reverse_index(index, indices),
{
    if index >= indices - 1 {
        index - (indices - 1)
    } else {
        (indices - 1) - index
    }
}

/// Within the valid positions, reversing an index twice gives it back.
pub proof fn lemma_reverse_index_involution(index: usize, indices: usize)
    requires
        index < indices,
    ensures
        spec_reverse_index(index, indices) < indices,
        spec_reverse_index(spec_reverse_index(index, indices) as usize, indices) == index,
{
}

} // verus!
