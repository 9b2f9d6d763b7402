use vstd::prelude::*;

use crate::bot::{Coords, Side, Size};

verus! {

/// Failure reported by a move-selection bot, with a descriptive cause.
#[derive(Debug)]
pub struct BotError {
    pub message: String,
}

/// Failure reported by the transport hooks, with a descriptive cause.
#[derive(Debug)]
pub struct HookError {
    pub message: String,
}

/// Failure raised by the board itself: a placement outside the field,
/// or on a cell that is already occupied.
#[derive(Debug, Clone, Copy)]
pub enum CoreError {
    OutOfBounds { coords: Coords, size: Size },
    CellOccupied { coords: Coords, side: Side },
}

/// The tagged union of everything that can abort a game run, naming
/// the collaborator that failed.
#[derive(Debug)]
pub enum GameProcessError {
    Bot(BotError),
    Hook(HookError),
    Core(CoreError),
}

impl CoreError {
    /// The error for a placement whose coordinates lie outside the field.
    pub fn of_wrong_coords(coords: Coords, size: Size) -> (r: Self)
        ensures
            r == (CoreError::OutOfBounds { coords, size }),
    {
        CoreError::OutOfBounds { coords, size }
    }

    /// The error for a placement on a cell already held by `current`.
    pub fn of_filled_cell(coords: Coords, current: Side) -> (r: Self)
        ensures
            r == (CoreError::CellOccupied { coords, side: current }),
    {
        CoreError::CellOccupied { coords, side: current }
    }
}

} // verus!
