use oamdp::domains::blocks_world::{
    Block, BlocksWorldAction, BlocksWorldMDPN, BlocksWorldState, Location,
};
use BlocksWorldAction::{PickUp, PutDown};
use Location::{On, OnHold, OnTable};

fn world() -> BlocksWorldMDPN<4> {
    // Letters A M S R; start "A SM R", goal "MARS".
    BlocksWorldMDPN::new(
        [OnTable, OnTable, On(Block::new(1)), OnTable],
        [On(Block::new(3)), On(Block::new(0)), OnTable, On(Block::new(2))],
        ['A', 'M', 'S', 'R'],
    )
}

#[test]
fn test_initial_state_blocks_world() {
    let blocks_world = world();
    assert_eq!(
        BlocksWorldState::new([OnTable, OnTable, On(Block::new(1)), OnTable]),
        blocks_world.initial_state()
    );
}

#[test]
fn blocks_world_action_enumeration() {
    let w = world();
    assert_eq!(w.num_actions(), 24);
    assert_eq!(*w.id_to_action(0), PickUp(Block::new(0)));
    assert_eq!(*w.id_to_action(1), PutDown(Block::new(0), OnTable));
    assert_eq!(*w.id_to_action(2), PutDown(Block::new(0), On(Block::new(0))));
    assert_eq!(*w.id_to_action(5), PutDown(Block::new(0), On(Block::new(3))));
    assert_eq!(*w.id_to_action(6), PickUp(Block::new(1)));
    assert_eq!(*w.id_to_action(23), PutDown(Block::new(3), On(Block::new(3))));
    assert_eq!(w.enumerate_actions().len(), 24);
    assert_eq!(w.heavy, None);
}

#[test]
fn blocks_world_pick_up_rules() {
    let w = world();
    let s = w.initial_state();
    let held = BlocksWorldState::new([OnHold, OnTable, On(Block::new(1)), OnTable]);
    assert_eq!(w.get_next_state(&s, &PickUp(Block::new(0)), false), held);
    // M carries S, so it cannot be picked up.
    assert_eq!(w.get_next_state(&s, &PickUp(Block::new(1)), false), s);
    // The hand is full.
    assert_eq!(w.get_next_state(&held, &PickUp(Block::new(2)), false), held);
}

#[test]
fn blocks_world_put_down_rules() {
    let w = world();
    let held = BlocksWorldState::new([OnHold, OnTable, On(Block::new(1)), OnTable]);
    let on_s = BlocksWorldState::new([On(Block::new(2)), OnTable, On(Block::new(1)), OnTable]);
    assert_eq!(w.get_next_state(&held, &PutDown(Block::new(0), On(Block::new(2))), false), on_s);
    // The block slips onto the table.
    assert_eq!(
        w.get_next_state(&held, &PutDown(Block::new(0), On(Block::new(2))), true),
        BlocksWorldState::new([OnTable, OnTable, On(Block::new(1)), OnTable])
    );
    // M already carries S.
    assert_eq!(w.get_next_state(&held, &PutDown(Block::new(0), On(Block::new(1))), false), held);
    // Not the held block.
    assert_eq!(w.get_next_state(&held, &PutDown(Block::new(1), On(Block::new(2))), false), held);
    // Onto itself.
    assert_eq!(w.get_next_state(&held, &PutDown(Block::new(0), On(Block::new(0))), false), held);
}

#[test]
fn blocks_world_reaches_goal() {
    let w = world();
    let mut s = w.initial_state();
    assert!(!w.is_terminal(&s));
    let plan = [
        PickUp(Block::new(2)),
        PutDown(Block::new(2), OnTable),
        PickUp(Block::new(3)),
        PutDown(Block::new(3), On(Block::new(2))),
        PickUp(Block::new(0)),
        PutDown(Block::new(0), On(Block::new(3))),
        PickUp(Block::new(1)),
        PutDown(Block::new(1), On(Block::new(0))),
    ];
    for a in plan.iter() {
        s = w.get_next_state(&s, a, false);
    }
    assert_eq!(s.locations, w.goal);
    assert!(w.is_terminal(&s));
}

fn valid(locs: &[Location; 4]) -> bool {
    let held = locs.iter().filter(|l| **l == OnHold).count();
    if held > 1 {
        return false;
    }
    for i in 0..4 {
        if let On(c) = locs[i] {
            if c.id >= 4 || c.id == i {
                return false;
            }
            if locs.iter().filter(|l| **l == On(c)).count() > 1 {
                return false;
            }
            if locs[c.id] == OnHold {
                return false;
            }
        }
    }
    // No tower loops: following the blocks beneath ends within four steps.
    for i in 0..4 {
        let mut k = i;
        let mut steps = 0;
        while let On(c) = locs[k] {
            k = c.id;
            steps += 1;
            if steps > 4 {
                return false;
            }
        }
    }
    true
}

#[test]
fn blocks_world_actions_keep_arrangements_possible() {
    let w = world();
    let mut frontier = vec![w.initial_state()];
    let mut seen = vec![w.initial_state()];
    while let Some(s) = frontier.pop() {
        assert!(valid(&s.locations));
        for a in w.enumerate_actions() {
            for slip in [false, true] {
                let t = w.get_next_state(&s, a, slip);
                assert!(valid(&t.locations));
                if !seen.contains(&t) {
                    seen.push(t);
                    frontier.push(t);
                }
            }
        }
    }
    // Every arrangement of four blocks, with at most one in the hand.
    assert_eq!(seen.len(), 125);
}
