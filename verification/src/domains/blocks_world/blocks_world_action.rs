use vstd::prelude::*;

use super::location::{Block, Location};

verus! {

/// Pick a block up, or put the held block down at a location.
#[derive(Eq, PartialEq, Debug, Copy, Clone, Hash, Structural)]
pub enum BlocksWorldAction {
    PickUp(Block),
    PutDown(Block, Location),
}

} // verus!
