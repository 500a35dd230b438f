use vstd::prelude::*;

verus! {

/// A cell of the Baker grid: row `i`, column `j`.
#[derive(Eq, PartialEq, Debug, Copy, Clone, Hash, Structural)]
pub struct BakerGridState {
    pub i: i32,
    pub j: i32,
}

impl BakerGridState {
    pub fn new(i: i32, j: i32) -> (r: BakerGridState)
        ensures
            r == (BakerGridState { i, j }),
    {
        BakerGridState { i: i, j: j }
    }
}

} // verus!
