use vstd::prelude::*;

verus! {

/// A block, named by its index in the state's location array.
#[derive(Eq, PartialEq, Debug, Copy, Clone, Hash, Structural)]
pub struct Block {
    pub id: usize,
}

impl Block {
    pub fn new(id: usize) -> (r: Block)
        ensures
            r.id == id,
    {
        Block { id: id }
    }
}

/// Where a block is: on the table, in the hand, or on top of another block.
#[derive(Eq, PartialEq, Debug, Copy, Clone, Hash, Structural)]
pub enum Location {
    OnTable,
    OnHold,
    On(Block),
}

} // verus!
