use vstd::prelude::*;

use super::location::Location;

verus! {

/// The location of each of the `N` blocks.
#[derive(Eq, PartialEq, Debug, Copy, Clone, Hash)]
pub struct BlocksWorldStateN<const N: usize> {
    pub locations: [Location; N],
}

/// The four-block world.
pub type BlocksWorldState = BlocksWorldStateN<4>;

impl<const N: usize> BlocksWorldStateN<N> {
    pub fn new(locations: [Location; N]) -> (r: BlocksWorldStateN<N>)
        ensures
            r.locations == locations,
    {
        BlocksWorldStateN { locations: locations }
    }
}

} // verus!
