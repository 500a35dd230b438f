use oamdp::algorithms::PolicyType;
use oamdp::domain_evaluator::DomainEvaluator;
use oamdp::domains::baker_grid::{BakerGridState, BakerMultiGridPartialMDP, Shape};
use oamdp::domains::recycle::{
    enumerate_communication_actions, Location, RecycleAction, RecycleCommunicationAction,
    RecycleJointAction,
};
use oamdp::domains::search_rescue_trevizan::CellStatus;

#[test]
fn recycle_joint_actions() {
    let a = RecycleAction::Moveto(1, Location::Compost);
    let m = RecycleCommunicationAction::Announce(Location::Trash);
    let mut j = RecycleJointAction::new(a, m);
    assert_eq!(j.inner(), a);
    assert_eq!(RecycleJointAction::from((a, m)), j);
    let plain = RecycleJointAction::from(a);
    assert_eq!(plain.communication_action, RecycleCommunicationAction::NoAnnouncement);
    j.set_message(RecycleCommunicationAction::NoAnnouncement);
    assert_eq!(j, plain);
    j.set_domain_action(RecycleAction::PickUp(0));
    assert_eq!(j.inner(), RecycleAction::PickUp(0));
    assert_eq!(j.communication_action, RecycleCommunicationAction::NoAnnouncement);
}

#[test]
fn recycle_communication_actions() {
    assert_eq!(
        enumerate_communication_actions(),
        vec![
            RecycleCommunicationAction::NoAnnouncement,
            RecycleCommunicationAction::Announce(Location::Recycle),
            RecycleCommunicationAction::Announce(Location::Compost),
            RecycleCommunicationAction::Announce(Location::Trash),
        ]
    );
}

#[test]
fn baker_multi_grid_partial_mdp() {
    let start = [BakerGridState::new(0, 0), BakerGridState::new(1, 1), BakerGridState::new(2, 2)];
    let a = BakerMultiGridPartialMDP::new(5, 8, vec![(4, 2), (3, 2)], start);
    let b = BakerMultiGridPartialMDP::new(5, 8, vec![(4, 2), (3, 2)], start);
    let c = BakerMultiGridPartialMDP::new(5, 8, vec![(4, 2)], start);
    assert_eq!(a, b);
    assert_ne!(a, c);
    assert_eq!(BakerGridState::new(4, 2), BakerGridState { i: 4, j: 2 });
}

#[test]
fn shape_random_draws_a_shape() {
    let mut rng = rand::thread_rng();
    let mut seen = Vec::new();
    for _ in 0..200 {
        let s = Shape::random(&mut rng);
        assert!(matches!(
            s,
            Shape::BlueSquare | Shape::BlueCircle | Shape::GreenSquare | Shape::GreenCircle
        ));
        if !seen.contains(&s) {
            seen.push(s);
        }
    }
    assert!(seen.len() > 1);
}

#[test]
fn plain_enums_and_evaluator() {
    assert_ne!(PolicyType::OneStepLookAhead, PolicyType::SnatchGridPoint);
    assert_ne!(CellStatus::Survivor, CellStatus::NoSurvivor);
    let _evaluator = DomainEvaluator::new(3usize);
}
