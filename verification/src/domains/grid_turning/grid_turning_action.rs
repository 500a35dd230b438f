use vstd::prelude::*;

verus! {

/// Turn an eighth left, an eighth right, or keep the heading.
#[derive(Eq, PartialEq, Debug, Copy, Clone, Hash, Structural)]
pub enum GridTurningAction {
    TurnLeft,
    TurnRight,
    GoStraight,
}

} // verus!
