use vstd::prelude::*;

verus! {

/// A grid cell: row `i`, column `j`.
#[derive(Eq, PartialEq, Debug, Copy, Clone, Hash, Structural)]
pub struct Coordinate2 {
    pub i: i32,
    pub j: i32,
}

impl Coordinate2 {
    pub fn new(i: i32, j: i32) -> (r: Coordinate2)
        ensures
            r == (Coordinate2 { i, j }),
    {
        Coordinate2 { i: i, j: j }
    }
}

} // verus!
