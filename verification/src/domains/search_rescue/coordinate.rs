use vstd::prelude::*;

verus! {

/// A cell of the search-and-rescue grid: row `i`, column `j`.
#[derive(Eq, PartialEq, Debug, Copy, Clone, Hash, Structural)]
pub struct Coordinate {
    pub i: i64,
    pub j: i64,
}

impl Coordinate {
    pub fn new(i: i64, j: i64) -> (r: Coordinate)
        ensures
            r == (Coordinate { i, j }),
    {
        Coordinate { i: i, j: j }
    }
}

} // verus!
