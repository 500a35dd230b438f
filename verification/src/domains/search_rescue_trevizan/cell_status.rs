use vstd::prelude::*;

verus! {

/// What is known of a cell: a survivor's likelihood, or whether one is
/// there.
#[derive(Eq, PartialEq, Debug, Copy, Clone, Hash, Structural)]
pub enum CellStatus {
    ProbLow,
    ProbMedium,
    ProbHigh,
    NoSurvivor,
    Survivor,
}

} // verus!
