use vstd::prelude::*;

use crate::error::{BotError, CoreError, GameProcessError, HookError};

verus! {

/// Packing of a collaborator's result into the game-level error union.
pub trait ResultExt<T>: Sized {
    /// What packing produces: success passes through unchanged, an
    /// error is tagged with the collaborator it came from.
    spec fn pack_spec(self) -> Result<T, GameProcessError>;

    /// Tags the error, if any, with its collaborator.
    fn pack_err(self) -> (r: Result<T, GameProcessError>)
        ensures
            r == self.pack_spec(),
    ;
}

impl<T> ResultExt<T> for Result<T, HookError> {
    open spec fn pack_spec(self) -> Result<T, GameProcessError> {
        match self {
            Ok(t) => Ok(t),
            Err(e) => Err(GameProcessError::Hook(e)),
        }
    }

    fn pack_err(self) -> (r: Result<T, GameProcessError>) {
        match self {
            Ok(t) => Ok(t),
            Err(e) => Err(GameProcessError::Hook(e)),
        }
    }
}

impl<T> ResultExt<T> for Result<T, CoreError> {
    open spec fn pack_spec(self) -> Result<T, GameProcessError> {
        match self {
            Ok(t) => Ok(t),
            Err(e) => Err(GameProcessError::Core(e)),
        }
    }

    fn pack_err(self) -> (r: Result<T, GameProcessError>) {
        match self {
            Ok(t) => Ok(t),
            Err(e) => Err(GameProcessError::Core(e)),
        }
    }
}

impl<T> ResultExt<T> for Result<T, BotError> {
    open spec fn pack_spec(self) -> Result<T, GameProcessError> {
        match self {
            Ok(t) => Ok(t),
            Err(e) => Err(GameProcessError::Bot(e)),
        }
    }

    fn pack_err(self) -> (r: Result<T, GameProcessError>) {
        match self {
            Ok(t) => Ok(t),
            Err(e) => Err(GameProcessError::Bot(e)),
        }
    }
}

} // verus!
