use vstd::prelude::*;

use super::direction::Direction;

verus! {

/// Cell `(i, j)` and heading of the agent.
#[derive(Eq, PartialEq, Debug, Copy, Clone, Hash, Structural)]
pub struct GridTurningState {
    pub i: i32,
    pub j: i32,
    pub direction: Direction,
}

impl GridTurningState {
    pub fn new(i: i32, j: i32, direction: Direction) -> (r: GridTurningState)
        ensures
            r == (GridTurningState { i, j, direction }),
    {
        GridTurningState { i: i, j: j, direction: direction }
    }
}

} // verus!
