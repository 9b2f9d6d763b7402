//! Core of a turn-based grid-game player: the board model, move
//! validation, win and draw detection, and the state machine that
//! sequences waiting for the opponent, deciding on a move, and
//! committing it. Transport and move-selection strategies are
//! collaborators reached through the `Hooks` and `Bot` traits.

pub mod bot;
pub mod error;
pub mod error_utils;
pub mod game_process;
pub mod hooks;
pub mod random_bot;
pub mod utils;
pub mod win;
