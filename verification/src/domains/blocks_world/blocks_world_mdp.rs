use vstd::prelude::*;

use super::blocks_world_action::BlocksWorldAction;
use super::blocks_world_state::BlocksWorldStateN;
use super::location::{Block, Location};

verus! {

/// The `k`-th action of a world with `nb` blocks: for each block in turn,
/// picking it up, putting it on the table, then putting it on each block.
pub open spec fn spec_action_at(nb: nat, k: int) -> BlocksWorldAction {
    let b = Block { id: (k / (nb + 2) as int) as usize };
    let r = k % (nb + 2) as int;
    if r == 0 {
        BlocksWorldAction::PickUp(b)
    } else if r == 1 {
        BlocksWorldAction::PutDown(b, Location::OnTable)
    } else {
        BlocksWorldAction::PutDown(b, Location::On(Block { id: (r - 2) as usize }))
    }
}

/// All actions of a world with `nb` blocks, in enumeration order.
pub open spec fn spec_all_actions(nb: nat) -> Seq<BlocksWorldAction> {
    Seq::new(nb * (nb + 2), |k: int| spec_action_at(nb, k))
}

/// A blocks world with `NB` blocks, its start and goal arrangements, the
/// action list, the optional heavy block and the blocks' letters.
#[derive(PartialEq, Debug, Clone)]
pub struct BlocksWorldMDPN<const NB: usize> {
    pub start: [Location; NB],
    pub goal: [Location; NB],
    pub all_actions: Vec<BlocksWorldAction>,
    pub heavy: Option<Block>,
    pub letters: [char; NB],
}

proof fn lemma_action_index(nb: nat, b: nat, r: nat)
    requires
        r < nb + 2,
    ensures
        (b * (nb + 2) + r) / (nb + 2) == b,
        (b * (nb + 2) + r) % (nb + 2) == r,
{
    vstd::arithmetic::div_mod::lemma_fundamental_div_mod_converse(
        (b * (nb + 2) + r) as int,
        (nb + 2) as int,
        b as int,
        r as int,
    );
}

impl<const NB: usize> BlocksWorldMDPN<NB> {
    pub fn new(start: [Location; NB], goal: [Location; NB], letters: [char; NB]) -> (r:
        BlocksWorldMDPN<NB>)
        requires
            NB * (NB + 2) <= usize::MAX,
        ensures
            r.start == start,
            r.goal == goal,
            r.letters == letters,
            r.all_actions@ == spec_all_actions(NB as nat),
            r.heavy is None,
    {
        let mut all_actions: Vec<BlocksWorldAction> = Vec::new();
        let ghost nb: nat = NB as nat;
        for b_id in 0..NB
            invariant
                NB * (NB + 2) <= usize::MAX,
                nb == NB,
                all_actions@.len() == b_id * (nb + 2),
                forall|k: int|
                    0 <= k < all_actions@.len() ==> #[trigger] all_actions@[k] == spec_action_at(
                        nb,
                        k,
                    ),
        {
            proof {
                lemma_action_index(nb, b_id as nat, 0);
                lemma_action_index(nb, b_id as nat, 1);
            }
            all_actions.push(BlocksWorldAction::PickUp(Block::new(b_id)));
            all_actions.push(BlocksWorldAction::PutDown(Block::new(b_id), Location::OnTable));
            for l_id in 0..NB
                invariant
                    NB * (NB + 2) <= usize::MAX,
                    nb == NB,
                    b_id < NB,
                    all_actions@.len() == b_id * (nb + 2) + 2 + l_id,
                    forall|k: int|
                        0 <= k < all_actions@.len() ==> #[trigger] all_actions@[k]
                            == spec_action_at(nb, k),
            {
                proof {
                    lemma_action_index(nb, b_id as nat, (l_id + 2) as nat);
                }
                all_actions.push(
                    BlocksWorldAction::PutDown(Block::new(b_id), Location::On(Block::new(l_id))),
                );
            }
            assert(all_actions@.len() == (b_id + 1) * (nb + 2)) by (nonlinear_arith)
                requires
                    all_actions@.len() == b_id * (nb + 2) + 2 + NB,
                    nb == NB,
            ;
        }
        assert(all_actions@ =~= spec_all_actions(nb));
        BlocksWorldMDPN {
            start: start,
            goal: goal,
            all_actions: all_actions,
            heavy: None,
            letters: letters,
        }
    }

    /// A state is terminal when every block is where the goal puts it.
    pub fn is_terminal(&self, s: &BlocksWorldStateN<NB>) -> (r: bool)
        ensures
            r == (s.locations@ == self.goal@),
    {
        let mut i: usize = 0;
        while i < NB
            invariant
                i <= NB,
                s.locations@.len() == NB,
                self.goal@.len() == NB,
                forall|k: int| 0 <= k < i ==> s.locations@[k] == self.goal@[k],
            decreases NB - i,
        {
            if s.locations[i] != self.goal[i] {
                assert(s.locations@[i as int] != self.goal@[i as int]);
                return false;
            }
            i = i + 1;
        }
        assert(s.locations@ =~= self.goal@);
        true
    }

    pub fn initial_state(&self) -> (r: BlocksWorldStateN<NB>)
        ensures
            r.locations == self.start,
    {
        BlocksWorldStateN::new(self.start)
    }

    pub fn enumerate_actions(&self) -> (r: &[BlocksWorldAction])
        ensures
            r@ == self.all_actions@,
    {
        self.all_actions.as_slice()
    }

    pub fn num_actions(&self) -> (r: usize)
        ensures
            r == self.all_actions@.len(),
    {
        self.all_actions.len()
    }

    pub fn id_to_action(&self, id: usize) -> (r: &BlocksWorldAction)
        requires
            id < self.all_actions@.len(),
        ensures
            *r == self.all_actions@[id as int],
    {
        &self.all_actions[id]
    }
}

} // verus!
