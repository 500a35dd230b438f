use oamdp::common::coordinate2::Coordinate2;
use oamdp::domains::rescue::{
    ObstacleCompatibility, ObstacleStatus, RescueAction, RescueMDP, RescuePartialMDP, RescueState,
};
use ObstacleStatus::{NotRemoved, Removed};

fn mdp_3x3(compatibility: ObstacleCompatibility) -> RescueMDP {
    RescueMDP::new(
        3,
        3,
        vec![(0, 1), (1, 2), (2, 0)],
        Coordinate2::new(0, 2),
        compatibility,
    )
}

fn as_probabilities(outcomes: Vec<(RescueState, u32)>) -> Vec<(RescueState, f32)> {
    outcomes
        .into_iter()
        .map(|(s, tenths)| (s, tenths as f32 / 10.0))
        .collect()
}

#[test]
fn test_rescue_p_mass() {
    let mdp = mdp_3x3(ObstacleCompatibility::High);
    let obstacles_status = [NotRemoved; 3];
    let obstacles_removed = [NotRemoved, NotRemoved, Removed];

    assert!(mdp.within_bound(1, 1));
    assert_eq!(
        vec![(RescueState::new(Coordinate2::new(1, 1), obstacles_status), 1.0)],
        as_probabilities(mdp.p_mass(
            &RescueState::new(Coordinate2::new(2, 1), obstacles_status),
            &RescueAction::North
        ))
    );
    assert_eq!(
        vec![
            (RescueState::new(Coordinate2::new(2, 0), obstacles_removed), 0.8),
            (RescueState::new(Coordinate2::new(2, 0), obstacles_status), 0.2)
        ],
        as_probabilities(mdp.p_mass(
            &RescueState::new(Coordinate2::new(2, 0), obstacles_status),
            &RescueAction::RemoveObstacle
        ))
    );
}

#[test]
fn rescue_low_compatibility_rarely_clears() {
    let mdp = mdp_3x3(ObstacleCompatibility::Low);
    let standing = [NotRemoved; 3];
    let s = RescueState::new(Coordinate2::new(0, 1), standing);
    let outcomes = mdp.p_mass(&s, &RescueAction::RemoveObstacle);
    assert_eq!(
        outcomes,
        vec![
            (RescueState::new(Coordinate2::new(0, 1), [Removed, NotRemoved, NotRemoved]), 2),
            (s, 8)
        ]
    );
    let total: u32 = outcomes.iter().map(|(_, p)| *p).sum();
    assert_eq!(total, 10);
}

#[test]
fn rescue_standing_obstacle_blocks_moves() {
    let mdp = mdp_3x3(ObstacleCompatibility::High);
    let s = RescueState::new(Coordinate2::new(1, 2), [NotRemoved; 3]);
    assert_eq!(mdp.p_mass(&s, &RescueAction::West), vec![(s, 10)]);
    let cleared = RescueState::new(Coordinate2::new(1, 2), [NotRemoved, Removed, NotRemoved]);
    assert_eq!(
        mdp.p_mass(&cleared, &RescueAction::West),
        vec![(RescueState::new(Coordinate2::new(1, 1), [NotRemoved, Removed, NotRemoved]), 10)]
    );
}

#[test]
fn rescue_moves_stay_on_grid_and_victim_is_absorbing() {
    let mdp = mdp_3x3(ObstacleCompatibility::High);
    let corner = RescueState::new(Coordinate2::new(2, 2), [Removed; 3]);
    assert_eq!(mdp.next(&corner, &RescueAction::South), corner);
    assert_eq!(mdp.next(&corner, &RescueAction::East), corner);
    assert_eq!(
        mdp.next(&corner, &RescueAction::North),
        RescueState::new(Coordinate2::new(1, 2), [Removed; 3])
    );
    let victim = RescueState::new(Coordinate2::new(0, 2), [Removed; 3]);
    assert!(mdp.is_terminal(&victim));
    assert_eq!(mdp.next(&victim, &RescueAction::West), victim);
    assert!(!mdp.within_bound(3, 0));
    assert!(!mdp.within_bound(0, -1));
}

#[test]
fn rescue_costs_and_transition_probabilities() {
    let mdp = mdp_3x3(ObstacleCompatibility::High);
    let victim = RescueState::new(Coordinate2::new(0, 2), [NotRemoved; 3]);
    let s = RescueState::new(Coordinate2::new(2, 0), [NotRemoved; 3]);
    assert_eq!(mdp.cost(&victim, &RescueAction::North), 0);
    assert_eq!(mdp.cost(&s, &RescueAction::North), 1);
    assert_eq!(mdp.d_cost(&s, &RescueAction::North, &victim), 1);
    let cleared = RescueState::new(Coordinate2::new(2, 0), [NotRemoved, NotRemoved, Removed]);
    assert_eq!(mdp.p(&s, &RescueAction::RemoveObstacle, &cleared), 8);
    assert_eq!(mdp.p(&s, &RescueAction::RemoveObstacle, &s), 2);
    assert_eq!(mdp.p(&s, &RescueAction::RemoveObstacle, &victim), 0);
}

#[test]
fn rescue_state_enumeration_order() {
    let mdp = mdp_3x3(ObstacleCompatibility::High);
    assert_eq!(mdp.num_states(), 72);
    assert_eq!(mdp.enumerate_states().len(), 72);
    assert_eq!(
        *mdp.id_to_state(0),
        RescueState::new(Coordinate2::new(0, 0), [Removed, Removed, Removed])
    );
    assert_eq!(
        *mdp.id_to_state(1),
        RescueState::new(Coordinate2::new(0, 0), [Removed, Removed, NotRemoved])
    );
    assert_eq!(
        *mdp.id_to_state(8 * 5 + 6),
        RescueState::new(Coordinate2::new(1, 2), [NotRemoved, NotRemoved, Removed])
    );
    assert_eq!(mdp.num_actions(), 5);
    assert_eq!(*mdp.id_to_action(4), RescueAction::RemoveObstacle);
    assert_eq!(mdp.enumerate_actions()[0], RescueAction::North);
    let start = mdp.initial_state();
    assert_eq!(start, RescueState::new(Coordinate2::new(2, 1), [NotRemoved; 3]));
}

#[test]
fn rescue_partial_mdp_builds_the_same_grid() {
    let partial = RescuePartialMDP::new(3, 3, vec![(0, 1), (1, 2), (2, 0)], Coordinate2::new(0, 2));
    let built = partial.build_from(ObstacleCompatibility::High);
    let direct = mdp_3x3(ObstacleCompatibility::High);
    assert_eq!(built, direct);
    let low = partial.build_from(ObstacleCompatibility::Low);
    assert_ne!(low, direct);
    assert_eq!(direct.clone(), direct);
}

#[test]
fn rescue_built_grid_lists_states_and_actions() {
    let partial = RescuePartialMDP::new(2, 4, vec![(1, 3)], Coordinate2::new(0, 0));
    let built = partial.build_from(ObstacleCompatibility::Low);
    built.prove_well_formed();
    assert_eq!(built.num_states(), 2 * 4 * 8);
    assert_eq!(
        *built.id_to_state(8 * (1 * 4 + 2) + 5),
        RescueState::new(Coordinate2::new(1, 2), [NotRemoved, Removed, NotRemoved])
    );
    assert_eq!(
        built.enumerate_actions(),
        &[
            RescueAction::North,
            RescueAction::South,
            RescueAction::East,
            RescueAction::West,
            RescueAction::RemoveObstacle,
        ]
    );
}

#[test]
fn rescue_supported_states() {
    let mdp = RescueMDP::new(
        2,
        3,
        vec![(0, 0), (0, 1), (0, 2), (1, 0)],
        Coordinate2::new(1, 2),
        ObstacleCompatibility::Low,
    );
    assert!(mdp.supports(&RescueState::new(Coordinate2::new(0, 2), [NotRemoved; 3])));
    assert!(mdp.supports(&RescueState::new(Coordinate2::new(1, 1), [NotRemoved; 3])));
    // The fourth obstacle is beyond the three a state tracks.
    assert!(!mdp.supports(&RescueState::new(Coordinate2::new(1, 0), [NotRemoved; 3])));
    assert!(!mdp.supports(&RescueState::new(Coordinate2::new(2, 0), [NotRemoved; 3])));
}

#[test]
fn rescue_every_step_is_a_distribution_and_enumeration_is_complete() {
    for compatibility in [ObstacleCompatibility::Low, ObstacleCompatibility::High] {
        let mdp = mdp_3x3(compatibility);
        for id in 0..mdp.num_states() {
            let s = *mdp.id_to_state(id);
            let bit = |o: ObstacleStatus| if o == Removed { 0 } else { 1 };
            let index = 8 * (s.coordinate.i as usize * 3 + s.coordinate.j as usize)
                + 4 * bit(s.obstacles_status[0])
                + 2 * bit(s.obstacles_status[1])
                + bit(s.obstacles_status[2]);
            assert_eq!(index, id);
            for a in mdp.enumerate_actions() {
                let outcomes = mdp.p_mass(&s, a);
                let total: u32 = outcomes.iter().map(|(_, p)| *p).sum();
                assert_eq!(total, 10);
                for (ss, _) in outcomes.iter() {
                    assert!(mdp.within_bound(ss.coordinate.i, ss.coordinate.j));
                    for o in 0..3 {
                        if s.obstacles_status[o] == Removed {
                            assert_eq!(ss.obstacles_status[o], Removed);
                        }
                    }
                    if mdp.is_terminal(&s) {
                        assert_eq!(ss.coordinate, s.coordinate);
                    }
                }
            }
        }
    }
}
