//! Level generation and difficulty scaling for a descending paper-plane arcade game.
//!
//! The player steers a paper plane down an endless shaft while platforms grow in from
//! the left and right walls. This crate holds the rules of that world: where platforms
//! appear, how large they are, when they leave the screen and score a point, how the
//! difficulty follows the score, and when the plane has crashed.
//!
//! All world lengths and positions are whole numbers of [`units::UNITS_PER_PIXEL`]-ths of
//! a pixel, so every rule is stated over integers. Rendering, input and windowing belong
//! to the program that embeds the crate; it hands positions in and takes positions out.

pub mod art;
pub mod game;
pub mod generic;
mod random;
pub mod units;

use vstd::prelude::*;
use game::GameState;

verus! {

/// The stages that the program moves through.
#[derive(Debug, Clone, Copy, Eq, PartialEq, Structural, Hash)]
pub enum AppState {
    MainMenu,
    GameSetup,
    Game,
    GameCleanup,
}

impl Default for AppState {
    fn default() -> (state: AppState)
        ensures
            state == AppState::MainMenu,
    {
        AppState::MainMenu
    }
}

/// Asks for the game to be cleaned up and says where to go afterwards.
#[derive(Debug, Clone, Copy, Eq, PartialEq, Structural)]
pub struct GameCleanupEvent {
    pub next_state: AppState,
}

/// The stage that the cleanup requests lead to: that of the last request, if any.
pub open spec fn requested_state(events: Seq<GameCleanupEvent>) -> Option<AppState> {
    if events.len() == 0 {
        None
    } else {
        Some(events.last().next_state)
    }
}

/// Ends a cleanup: the game runs again, and the program moves on to the stage that
/// the last cleanup request named, if there was a request.
pub fn game_cleanup_transition(events: &Vec<GameCleanupEvent>) -> (next: (
    GameState,
    Option<AppState>,
))
    ensures
        next.0 == GameState::Running,
        next.1 == requested_state(events@),
{
    let mut next_app_state: Option<AppState> = None;
    let mut i: usize = 0;
    while i < events.len()
        invariant
            i <= events.len(),
            next_app_state == requested_state(events@.take(i as int)),
        decreases events.len() - i,
    {
        next_app_state = Some(events[i].next_state);
        i += 1;
    }
    proof {
        assert(events@.take(events.len() as int) =~= events@);
    }
    (GameState::Running, next_app_state)
}

/// The state that a tick of the pause key logic asks for, if any.
///
/// Outside the game stage the game is always set running, so that the pause menu
/// cannot stay open beside another menu. Within it, the pause key halts a running game
/// and resumes a halted one; after a crash it does nothing.
pub open spec fn pause_request(
    escape_just_pressed: bool,
    game_state: GameState,
    app_state: AppState,
) -> Option<GameState> {
    if app_state != AppState::Game {
        Some(GameState::Running)
    } else if escape_just_pressed {
        match game_state {
            GameState::Paused => Some(GameState::Running),
            GameState::Running => Some(GameState::Paused),
            GameState::GameOver => None,
        }
    } else {
        None
    }
}

/// Opens and closes the pause menu with the pause key.
pub fn change_pause_state(
    escape_just_pressed: bool,
    game_state: GameState,
    app_state: AppState,
) -> (next_state: Option<GameState>)
    ensures
        next_state == pause_request(escape_just_pressed, game_state, app_state),
{
    let mut next_state: Option<GameState> = None;
    if escape_just_pressed {
        next_state = match game_state {
            GameState::Paused => Some(GameState::Running),
            GameState::Running => Some(GameState::Paused),
            GameState::GameOver => None,
        };
    }

    // Keeps the pause menu and the game-over menu from being open at once, when the
    // pause key is pressed in the frame of the crash.
    if app_state != AppState::Game {
        next_state = Some(GameState::Running);
    }
    next_state
}

} // verus!
