use vstd::prelude::*;

use super::blocks_world_action::BlocksWorldAction;
use super::blocks_world_mdp::BlocksWorldMDPN;
use super::blocks_world_state::BlocksWorldStateN;
use super::change_at::change_at;
use super::contains::contains;
use super::location::{Block, Location};

verus! {

/// The locations after taking action `a` in `locs`, where `slip` says whether
/// a block put onto another block falls onto the table instead.
///
/// Picking up only works with an empty hand and a clear block.  Putting down
/// only works for the held block, onto the table or onto a clear block other
/// than itself.
pub open spec fn spec_next_locations(locs: Seq<Location>, a: BlocksWorldAction, slip: bool) -> Seq<
    Location,
> {
    match a {
        BlocksWorldAction::PickUp(b) => {
            if locs.contains(Location::OnHold) || locs.contains(Location::On(b)) {
                locs
            } else {
                locs.update(b.id as int, Location::OnHold)
            }
        },
        BlocksWorldAction::PutDown(b, l) => {
            if locs[b.id as int] != Location::OnHold {
                locs
            } else if locs.contains(Location::On(b)) || Location::On(b) == l {
                locs
            } else if l == Location::OnTable {
                locs.update(b.id as int, Location::OnTable)
            } else if locs.contains(l) {
                locs
            } else if slip {
                locs.update(b.id as int, Location::OnTable)
            } else {
                locs.update(b.id as int, l)
            }
        },
    }
}

/// The blocks an action names exist in a world of `n` blocks.
pub open spec fn action_in_range(a: BlocksWorldAction, n: nat) -> bool {
    match a {
        BlocksWorldAction::PickUp(b) => b.id < n,
        BlocksWorldAction::PutDown(b, l) => b.id < n && (l matches Location::On(c) ==> c.id < n),
    }
}

/// `rank` strictly decreases from each block to the block beneath it.
pub open spec fn ranked(locs: Seq<Location>, rank: Seq<nat>) -> bool {
    &&& rank.len() == locs.len()
    &&& forall|i: int|
        0 <= i < locs.len() ==> (#[trigger] locs[i] matches Location::On(c) ==> rank[i]
            > rank[c.id as int])
}

/// A physically possible arrangement: blocks rest on other existing blocks,
/// at most one block is held, no two blocks sit on the same block, nothing
/// sits on the held block, and no tower loops back onto itself.
pub open spec fn valid_locations(locs: Seq<Location>) -> bool {
    &&& forall|i: int|
        0 <= i < locs.len() ==> (#[trigger] locs[i] matches Location::On(c) ==> c.id < locs.len()
            && c.id != i)
    &&& forall|i: int, j: int|
        0 <= i < locs.len() && 0 <= j < locs.len() && #[trigger] locs[i] == Location::OnHold
            && #[trigger] locs[j] == Location::OnHold ==> i == j
    &&& forall|i: int, j: int|
        0 <= i < locs.len() && 0 <= j < locs.len() && i != j && (#[trigger] locs[i] is On)
            ==> locs[i] != #[trigger] locs[j]
    &&& forall|i: int|
        0 <= i < locs.len() && #[trigger] locs[i] == Location::OnHold ==> !locs.contains(
            Location::On(Block { id: i as usize }),
        )
    &&& exists|rank: Seq<nat>| ranked(locs, rank)
}

/// Every action keeps a physically possible arrangement physically possible,
/// whether or not the block slips.
pub proof fn lemma_next_state_keeps_validity(locs: Seq<Location>, a: BlocksWorldAction, slip: bool)
    requires
        valid_locations(locs),
        action_in_range(a, locs.len()),
    ensures
        valid_locations(spec_next_locations(locs, a, slip)),
{
    let n = locs.len();
    let next = spec_next_locations(locs, a, slip);
    let rank = choose|rank: Seq<nat>| ranked(locs, rank);
    match a {
        BlocksWorldAction::PickUp(b) => {
            if !(locs.contains(Location::OnHold) || locs.contains(Location::On(b))) {
                assert forall|i: int| 0 <= i < n implies #[trigger] locs[i] != Location::OnHold by {
                    if locs[i] == Location::OnHold {
                        assert(locs.contains(Location::OnHold));
                    }
                }
                assert forall|i: int| 0 <= i < n implies #[trigger] locs[i] != Location::On(b) by {
                    if locs[i] == Location::On(b) {
                        assert(locs.contains(Location::On(b)));
                    }
                }
                assert(ranked(next, rank));
                assert forall|i: int|
                    0 <= i < n && #[trigger] next[i] == Location::OnHold implies !next.contains(
                        Location::On(Block { id: i as usize }),
                    ) by {
                    assert(i == b.id);
                    if next.contains(Location::On(Block { id: i as usize })) {
                        let k = choose|k: int|
                            0 <= k < n && next[k] == Location::On(Block { id: i as usize });
                        assert(locs[k] == Location::On(b));
                    }
                }
            }
        },
        BlocksWorldAction::PutDown(b, l) => {
            if locs[b.id as int] == Location::OnHold && !(locs.contains(Location::On(b))
                || Location::On(b) == l) {
                assert forall|i: int| 0 <= i < n && i != b.id implies #[trigger] locs[i]
                    != Location::OnHold by {}
                assert forall|i: int| 0 <= i < n implies #[trigger] locs[i] != Location::On(b) by {
                    if locs[i] == Location::On(b) {
                        assert(locs.contains(Location::On(b)));
                    }
                }
                if l == Location::OnTable || slip && !locs.contains(l) {
                    assert(next == locs.update(b.id as int, Location::OnTable));
                    assert(ranked(next, rank));
                } else if !locs.contains(l) {
                    let c = l->On_0;
                    assert(next == locs.update(b.id as int, l));
                    assert forall|i: int| 0 <= i < n implies #[trigger] locs[i] != l by {
                        if locs[i] == l {
                            assert(locs.contains(l));
                        }
                    }
                    let rank2 = rank.update(b.id as int, rank[c.id as int] + 1);
                    assert(ranked(next, rank2));
                }
            }
        },
    }
}

/// The block an action names.
pub open spec fn acted_block(a: BlocksWorldAction) -> Block {
    match a {
        BlocksWorldAction::PickUp(b) => b,
        BlocksWorldAction::PutDown(b, _) => b,
    }
}

/// Only the block an action names ever moves.  A block is picked up only
/// from an empty hand and only when nothing rests on it; a block that is not
/// in the hand cannot be put down, so putting it down changes nothing; the
/// held block leaves the hand only for the table or for the named block,
/// and only onto a block that was clear.
pub proof fn lemma_only_named_block_moves(locs: Seq<Location>, a: BlocksWorldAction, slip: bool)
    requires
        acted_block(a).id < locs.len(),
    ensures
        spec_next_locations(locs, a, slip).len() == locs.len(),
        forall|i: int|
            0 <= i < locs.len() && i != acted_block(a).id ==> #[trigger] spec_next_locations(
                locs,
                a,
                slip,
            )[i] == locs[i],
        a matches BlocksWorldAction::PutDown(b, _) && locs[b.id as int] != Location::OnHold
            ==> spec_next_locations(locs, a, slip) == locs,
        a matches BlocksWorldAction::PutDown(b, l) ==> {
            let after = spec_next_locations(locs, a, slip)[b.id as int];
            ||| after == locs[b.id as int]
            ||| locs[b.id as int] == Location::OnHold && after == Location::OnTable
            ||| locs[b.id as int] == Location::OnHold && after == l && !locs.contains(l)
        },
        a matches BlocksWorldAction::PickUp(b) ==> {
            let after = spec_next_locations(locs, a, slip)[b.id as int];
            ||| after == locs[b.id as int]
            ||| after == Location::OnHold && !locs.contains(Location::OnHold) && !locs.contains(
                Location::On(b),
            )
        },
{
}

impl<const N: usize> BlocksWorldMDPN<N> {
    /// The successor of `s` under `a`.  `slip` is the outcome of the random
    /// draw that decides whether a block put onto another block falls onto
    /// the table instead.
    pub fn get_next_state(&self, s: &BlocksWorldStateN<N>, a: &BlocksWorldAction, slip: bool) -> (r:
        BlocksWorldStateN<N>)
        requires
            match *a {
                BlocksWorldAction::PickUp(b) => b.id < N || s.locations@.contains(Location::OnHold)
                    || s.locations@.contains(Location::On(b)),
                BlocksWorldAction::PutDown(b, _) => b.id < N,
            },
        ensures
            r.locations@ == spec_next_locations(s.locations@, *a, slip),
    {
        match a {
            BlocksWorldAction::PickUp(b) => {
                if contains(&s.locations, Location::OnHold) || contains(
                    &s.locations,
                    Location::On(*b),
                ) {
                    BlocksWorldStateN::new(s.locations)
                } else {
                    BlocksWorldStateN::new(change_at(s.locations, b.id, Location::OnHold))
                }
            },
            BlocksWorldAction::PutDown(b, l) => {
                if s.locations[b.id] != Location::OnHold {
                    BlocksWorldStateN::new(s.locations)
                } else {
                    if contains(&s.locations, Location::On(*b)) || Location::On(*b) == *l {
                        BlocksWorldStateN::new(s.locations)
                    } else {
                        if *l == Location::OnTable {
                            BlocksWorldStateN::new(change_at(s.locations, b.id, Location::OnTable))
                        } else if contains(&s.locations, *l) {
                            BlocksWorldStateN::new(s.locations)
                        } else {
                            if slip {
                                BlocksWorldStateN::new(
                                    change_at(s.locations, b.id, Location::OnTable),
                                )
                            } else {
                                BlocksWorldStateN::new(change_at(s.locations, b.id, *l))
                            }
                        }
                    }
                }
            },
        }
    }
}

} // verus!
