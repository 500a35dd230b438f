use vstd::prelude::*;

verus! {

/// Where an item is: one of the three bins, or the robot's hand.
#[derive(Eq, PartialEq, Debug, Copy, Clone, Hash, Structural)]
pub enum Location {
    Compost,
    Recycle,
    Trash,
    InHand,
}

} // verus!
