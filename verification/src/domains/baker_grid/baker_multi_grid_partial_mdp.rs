use vstd::prelude::*;

use super::baker_grid_state::BakerGridState;

verus! {

/// A Baker grid with `N` agents whose goals are still to be chosen.
#[derive(PartialEq, Debug, Clone)]
pub struct BakerMultiGridPartialMDP<const N: usize> {
    height: usize,
    width: usize,
    obstacles: Vec<BakerGridState>,
    dangerous_coordinates: Vec<(usize, usize)>,
    initial_state: [BakerGridState; N],
}

impl<const N: usize> BakerMultiGridPartialMDP<N> {
    pub closed spec fn spec_height(&self) -> nat {
        self.height as nat
    }

    pub closed spec fn spec_width(&self) -> nat {
        self.width as nat
    }

    /// The blocked cells.
    pub closed spec fn spec_obstacles(&self) -> Seq<BakerGridState> {
        self.obstacles@
    }

    /// The cells marked dangerous.
    pub closed spec fn spec_dangerous_coordinates(&self) -> Seq<(usize, usize)> {
        self.dangerous_coordinates@
    }

    /// Where each agent starts.
    pub closed spec fn spec_initial_state(&self) -> Seq<BakerGridState> {
        self.initial_state@
    }

    pub fn new(
        height: usize,
        width: usize,
        coordinates: Vec<(i32, i32)>,
        initial_state: [BakerGridState; N],
    ) -> (r: BakerMultiGridPartialMDP<N>)
        ensures
            r.spec_height() == height,
            r.spec_width() == width,
            r.spec_obstacles().len() == coordinates@.len(),
            forall|k: int|
                0 <= k < coordinates@.len() ==> #[trigger] r.spec_obstacles()[k] == (BakerGridState {
                    i: coordinates@[k].0,
                    j: coordinates@[k].1,
                }),
            r.spec_dangerous_coordinates().len() == 0,
            r.spec_initial_state() == initial_state@,
    {
        let mut obstacles: Vec<BakerGridState> = Vec::new();
        for k in 0..coordinates.len()
            invariant
                obstacles@.len() == k,
                forall|kk: int|
                    0 <= kk < k ==> #[trigger] obstacles@[kk] == (BakerGridState {
                        i: coordinates@[kk].0,
                        j: coordinates@[kk].1,
                    }),
        {
            let (i, j) = coordinates[k];
            obstacles.push(BakerGridState::new(i, j));
        }
        BakerMultiGridPartialMDP {
            width: width,
            height: height,
            obstacles: obstacles,
            dangerous_coordinates: Vec::new(),
            initial_state: initial_state,
        }
    }
}

} // verus!
