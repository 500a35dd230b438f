use vstd::prelude::*;

use super::grid_turning_action::GridTurningAction;
use super::grid_turning_state::GridTurningState;

verus! {

/// A state of a trace and the action taken there, if any.
#[derive(Eq, PartialEq, Debug, Copy, Clone, Hash, Structural)]
pub struct GridTurningPair {
    pub s: GridTurningState,
    pub a: Option<GridTurningAction>,
}

impl GridTurningPair {
    pub fn new(s: GridTurningState, a: Option<GridTurningAction>) -> (r: GridTurningPair)
        ensures
            r == (GridTurningPair { s, a }),
    {
        GridTurningPair { s: s, a: a }
    }

    pub fn has_action(&self) -> (r: bool)
        ensures
            r == self.a is Some,
    {
        if let Some(_a) = self.a {
            true
        } else {
            false
        }
    }

    pub fn get_action(&self) -> (r: GridTurningAction)
        requires
            self.a is Some,
        ensures
            self.a == Some(r),
    {
        self.a.unwrap()
    }
}

/// A trace of state and action pairs.
#[derive(Debug)]
pub struct GridTurningPairs {
    vec: Vec<GridTurningPair>,
}

impl GridTurningPairs {
    /// The pairs of the trace, in order.
    pub closed spec fn pairs(&self) -> Seq<GridTurningPair> {
        self.vec@
    }

    pub fn new(vec: Vec<GridTurningPair>) -> (r: GridTurningPairs)
        ensures
            r.pairs() == vec@,
    {
        GridTurningPairs { vec: vec }
    }

    pub fn size(&self) -> (r: usize)
        ensures
            r == self.pairs().len(),
    {
        self.vec.len()
    }

    pub fn at(&self, index: usize) -> (r: GridTurningPair)
        requires
            index < self.pairs().len(),
        ensures
            r == self.pairs()[index as int],
    {
        self.vec[index]
    }
}

} // verus!
