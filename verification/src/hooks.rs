use vstd::prelude::*;

use crate::bot::{Coords, Turn};
use crate::error::HookError;
use crate::game_process::PlayInfo;

verus! {

/// The transport that connects a game to its remote opponent.
///
/// `init` registers the player and yields the game's configuration;
/// every implementation owes a configuration satisfying
/// `PlayInfo::valid`. `wait_for_turn` polls for the opponent's move,
/// where `None` means the opponent has not moved yet and it is the
/// local side's turn to decide. `make_turn` submits the local side's
/// chosen coordinate. Nothing is promised about the moves a transport
/// hands back: an impossible move surfaces as a `CoreError` when the
/// game process tries to place it.
pub trait Hooks {
    /// Obtains the configuration of the game about to be played.
    fn init(&mut self) -> (r: Result<PlayInfo, HookError>)
        ensures
            r matches Ok(info) ==> info.valid(),
    ;

    /// Polls for the opponent's move; `None` means it is our turn.
    fn wait_for_turn(&mut self) -> Result<Option<Turn>, HookError>;

    /// Submits the local side's move.
    fn make_turn(&mut self, turn: &Coords) -> Result<(), HookError>;
}

} // verus!
