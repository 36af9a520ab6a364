//! The game-mode state machine: three modes and the closed set of
//! transition edges between them.

use vstd::prelude::*;

verus! {

/// The mode the game is in; exactly one is active at a time.
#[derive(Clone, Copy, Debug, PartialEq, Eq, Structural)]
pub enum GameMode {
    MainMenu,
    InGame,
    GameOver,
}

/// An occurrence the state machine reacts to: the confirm key was
/// pressed on a menu screen, or the player hit a pipe or the ground.
#[derive(Clone, Copy, Debug, PartialEq, Eq, Structural)]
pub enum GameEvent {
    MenuConfirm,
    PlayerHit,
}

/// The closed transition relation: the only edges the state machine may
/// take. Menu confirmation starts (or restarts) a round; a hit ends one.
pub open spec fn transition_spec(mode: GameMode, ev: GameEvent) -> Option<GameMode> {
    match (mode, ev) {
        (GameMode::MainMenu, GameEvent::MenuConfirm) => Some(GameMode::InGame),
        (GameMode::GameOver, GameEvent::MenuConfirm) => Some(GameMode::InGame),
        (GameMode::InGame, GameEvent::PlayerHit) => Some(GameMode::GameOver),
        _ => None,
    }
}

/// Take one state-machine edge; `None` means the event has no edge from
/// this mode and the request must be ignored.
pub fn transition(mode: GameMode, ev: GameEvent) -> (r: Option<GameMode>)
    ensures
        r == transition_spec(mode, ev),
{
    match (mode, ev) {
        (GameMode::MainMenu, GameEvent::MenuConfirm) => Some(GameMode::InGame),
        (GameMode::GameOver, GameEvent::MenuConfirm) => Some(GameMode::InGame),
        (GameMode::InGame, GameEvent::PlayerHit) => Some(GameMode::GameOver),
        _ => None,
    }
}

} // verus!
