use vstd::prelude::*;

verus! {

/// A cell of a grid world: column `x`, row `y`.
#[derive(Eq, PartialEq, Debug, Copy, Clone, Hash, Structural)]
pub struct GridWorldState {
    pub x: i64,
    pub y: i64,
}

impl GridWorldState {
    pub fn new(x: i64, y: i64) -> (r: GridWorldState)
        ensures
            r == (GridWorldState { x, y }),
    {
        GridWorldState { x: x, y: y }
    }
}

/// Attempted moves of a grid world.
#[derive(Eq, PartialEq, Debug, Copy, Clone, Hash, Structural)]
pub enum GridWorldAction {
    AttemptUp,
    AttemptRight,
    AttemptDown,
    AttemptLeft,
}

} // verus!
