//! Names of the renderer's shader programs.
use vstd::prelude::*;

verus! {

/// A shader program: the built-in one, or one named by the game.
#[derive(Clone, PartialEq, Eq, Hash, Debug)]
pub enum ShaderId {
    BuiltIn,
    Custom(String),
}

} // verus!
