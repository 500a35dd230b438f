use oamdp::domains::grid_turning::{
    get_di, get_dj, turn_left, turn_right, veer_left, veer_right, Direction, GridTurningAction,
    GridTurningPair, GridTurningPairs, GridTurningState,
};

const ALL: [Direction; 8] = [
    Direction::East,
    Direction::SouthEast,
    Direction::South,
    Direction::SouthWest,
    Direction::West,
    Direction::NorthWest,
    Direction::North,
    Direction::NorthEast,
];

#[test]
fn turning_right_goes_clockwise() {
    for k in 0..8 {
        assert_eq!(turn_right(ALL[k]), ALL[(k + 1) % 8]);
        assert_eq!(turn_left(ALL[k]), ALL[(k + 7) % 8]);
        assert_eq!(veer_right(ALL[k]), ALL[(k + 2) % 8]);
        assert_eq!(veer_left(ALL[k]), ALL[(k + 6) % 8]);
    }
    assert_eq!(turn_right(Direction::North), Direction::NorthEast);
    assert_eq!(turn_left(Direction::North), Direction::NorthWest);
}

#[test]
fn turns_cancel_and_half_turn_reverses() {
    for d in ALL.iter() {
        assert_eq!(turn_left(turn_right(*d)), *d);
        assert_eq!(veer_left(veer_right(*d)), *d);
        let back = veer_right(veer_right(*d));
        assert_eq!(get_di(back), -get_di(*d));
        assert_eq!(get_dj(back), -get_dj(*d));
        assert!(get_di(*d) != 0 || get_dj(*d) != 0);
    }
}

#[test]
fn direction_steps() {
    assert_eq!((get_di(Direction::North), get_dj(Direction::North)), (-1, 0));
    assert_eq!((get_di(Direction::SouthEast), get_dj(Direction::SouthEast)), (1, 1));
    assert_eq!((get_di(Direction::West), get_dj(Direction::West)), (0, -1));
}

#[test]
fn grid_turning_pairs() {
    let s = GridTurningState::new(1, 2, Direction::North);
    assert_eq!((s.i, s.j, s.direction), (1, 2, Direction::North));
    let with = GridTurningPair::new(s, Some(GridTurningAction::TurnLeft));
    let without = GridTurningPair::new(s, None);
    assert!(with.has_action());
    assert!(!without.has_action());
    assert_eq!(with.get_action(), GridTurningAction::TurnLeft);
    let pairs = GridTurningPairs::new(vec![with, without]);
    assert_eq!(pairs.size(), 2);
    assert_eq!(pairs.at(0), with);
    assert_eq!(pairs.at(1), without);
}
