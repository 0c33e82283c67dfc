//! Contact between the plane and the walls or platforms.

use vstd::prelude::*;
use crate::game::platforms::{Platform, Platforms};
use crate::game::sprite_scaler::ScaleFactor;
use crate::game::{GameState, Vector2};
use crate::generic::{Direction, ScreenInformation};
use crate::units::UNITS_PER_PIXEL;

verus! {

/// How far, before scaling, the plane may reach over the inner end of a platform
/// without touching it: two pixels.
pub const REMOVE_PLATFORM_X_PIXELS: i64 = 2 * UNITS_PER_PIXEL;

/// The forgiving margin at a platform's inner end, in world units.
pub open spec fn edge_trim(scale_factor: ScaleFactor) -> int {
    REMOVE_PLATFORM_X_PIXELS * scale_factor.current
}

/// Whether a point at `x` lies outside the level's walls. A point exactly on a wall is
/// still inside.
pub open spec fn hits_wall(x: int, screen: ScreenInformation) -> bool {
    x > screen.window_width - screen.x_deadspace || x < screen.x_deadspace
}

/// Whether a point touches a platform. Across, a platform on the left wall is touched
/// left of its upper x bound less the trim, one on the right wall right of its upper x
/// bound plus the trim; in height, strictly between the platform's lower and upper
/// edge.
pub open spec fn hits_platform(x: int, y: int, platform: Platform, trim: int) -> bool {
    let x_collision = match platform.side {
        Direction::Left => x < platform.hitbox[0].max - trim,
        Direction::Right => x > platform.hitbox[0].max + trim,
    };
    let y_collision = y < platform.hitbox[1].max && y > platform.hitbox[1].min;
    x_collision && y_collision
}

/// Whether the plane at `(x, y)` has crashed: into a wall, or into any of the
/// platforms.
pub open spec fn collides(
    x: int,
    y: int,
    platforms: Seq<Platform>,
    screen: ScreenInformation,
    scale_factor: ScaleFactor,
) -> bool {
    hits_wall(x, screen) || exists|i: int|
        0 <= i < platforms.len() && hits_platform(
            x,
            y,
            #[trigger] platforms[i],
            edge_trim(scale_factor),
        )
}

/// Tests the plane against the walls and every platform.
///
/// Returns the state to change to: `GameOver` if the plane has crashed, and nothing if
/// it has not or if there is no plane at the moment.
pub fn detect_collisions(
    platforms: &Platforms,
    player_translation: Option<Vector2>,
    screen_information: &ScreenInformation,
    scale_factor: &ScaleFactor,
) -> (next_state: Option<GameState>)
    requires
        platforms.wf(),
        screen_information.wf(),
        scale_factor.wf(),
    ensures
        next_state == match player_translation {
            Some(player) => if collides(
                player.x as int,
                player.y as int,
                platforms.platforms_vec@,
                *screen_information,
                *scale_factor,
            ) {
                Some(GameState::GameOver)
            } else {
                None
            },
            None => None,
        },
{
    if let Some(player) = player_translation {
        let mut collision = false;

        // The walls.
        if player.x > screen_information.window_width - screen_information.x_deadspace {
            collision = true;
        } else if player.x < screen_information.x_deadspace {
            collision = true;
        }
        let trim: i64 = REMOVE_PLATFORM_X_PIXELS * scale_factor.current;

        // Every platform; a hit once found stays.
        let mut i: usize = 0;
        while i < platforms.platforms_vec.len()
            invariant
                i <= platforms.platforms_vec.len(),
                platforms.wf(),
                0 <= trim <= 20_000_000,
                trim == edge_trim(*scale_factor),
                collision == (hits_wall(player.x as int, *screen_information) || exists|j: int|
                    0 <= j < i && hits_platform(
                        player.x as int,
                        player.y as int,
                        #[trigger] platforms.platforms_vec@[j],
                        trim as int,
                    )),
            decreases platforms.platforms_vec.len() - i,
        {
            let platform = &platforms.platforms_vec[i];
            let x_collision = match platform.side {
                Direction::Left => player.x < platform.hitbox[0].max - trim,
                Direction::Right => player.x > platform.hitbox[0].max + trim,
            };
            let y_collision = player.y < platform.hitbox[1].max && player.y
                > platform.hitbox[1].min;

            if !collision {
                collision = x_collision && y_collision;
            }
            i += 1;
        }

        if collision {
            return Some(GameState::GameOver);
        }
    }
    None
}

} // verus!
