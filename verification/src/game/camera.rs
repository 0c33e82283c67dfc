//! The camera that follows the plane down.

use vstd::prelude::*;
use crate::game::Vector2;
use crate::units::WINDOW_LIMIT;
use crate::AppState;

verus! {

/// The middle of a window of the given size.
pub open spec fn window_center(window_width: i64, window_height: i64) -> Vector2 {
    Vector2 { x: (window_width / 2) as i64, y: (window_height / 2) as i64 }
}

/// Where the camera starts: over the middle of the window.
pub fn spawn_camera(window_width: i64, window_height: i64) -> (camera: Vector2)
    requires
        0 <= window_width <= WINDOW_LIMIT,
        0 <= window_height <= WINDOW_LIMIT,
    ensures
        camera == window_center(window_width, window_height),
{
    Vector2 { x: window_width / 2, y: window_height / 2 }
}

/// Moves the camera to the plane's height, if there is a plane.
pub fn move_camera(camera: &mut Vector2, player_translation: Option<Vector2>)
    ensures
        final(camera).x == old(camera).x,
        final(camera).y == match player_translation {
            Some(player) => player.y,
            None => old(camera).y,
        },
{
    if let Some(player) = player_translation {
        camera.y = player.y;
    }
}

/// Puts the camera back over the middle of the window when the game is being cleaned
/// up or the window was resized, and leaves it alone otherwise.
pub fn reset_camera_position(
    camera: &mut Vector2,
    window_width: i64,
    window_height: i64,
    resized: bool,
    app_state: AppState,
)
    requires
        0 <= window_width <= WINDOW_LIMIT,
        0 <= window_height <= WINDOW_LIMIT,
    ensures
        *final(camera) == if resized || app_state == AppState::GameCleanup {
            window_center(window_width, window_height)
        } else {
            *old(camera)
        },
{
    let mut resize = match app_state {
        AppState::GameCleanup => true,
        _ => false,
    };
    if resized {
        resize = true;
    }

    if resize {
        camera.x = window_width / 2;
        camera.y = window_height / 2;
    }
}

} // verus!
