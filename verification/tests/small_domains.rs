use oamdp::domains::race_track::{
    get_ddx, get_ddy, RaceTrackAction, RaceTrackState, RaceTrackStateInner,
};
use oamdp::domains::salome_grid::{get_di, get_dj, SalomeGridAction};
use oamdp::domains::search_rescue::{
    Coordinate, ObstacleCompatibility, ObstacleStatus, SearchRescueParameter,
    SearchRescuePartialMDP, SearchRescueState, VictimStatus,
};

#[test]
fn race_track_accelerations() {
    assert_eq!((get_ddx(RaceTrackAction::North), get_ddy(RaceTrackAction::North)), (0, 1));
    assert_eq!((get_ddx(RaceTrackAction::SouthWest), get_ddy(RaceTrackAction::SouthWest)), (-1, -1));
    assert_eq!((get_ddx(RaceTrackAction::East), get_ddy(RaceTrackAction::East)), (1, 0));
    assert_eq!((get_ddx(RaceTrackAction::Keep), get_ddy(RaceTrackAction::Keep)), (0, 0));
}

#[test]
fn race_track_var_names() {
    assert_eq!(RaceTrackAction::North.to_var_name(), "N");
    assert_eq!(RaceTrackAction::NorthEast.to_var_name(), "NE");
    assert_eq!(RaceTrackAction::SouthWest.to_var_name(), "SW");
    assert_eq!(RaceTrackAction::Keep.to_var_name(), "K");
}

#[test]
fn race_track_states() {
    let s = RaceTrackState::new(3, 4, -1, 2);
    assert_eq!(s, RaceTrackState::Wrapper(RaceTrackStateInner { x: 3, y: 4, dx: -1, dy: 2 }));
    assert_eq!(RaceTrackStateInner::new(0, 1, 0, 0).y, 1);
    assert_ne!(s, RaceTrackState::Dummy);
}

#[test]
fn salome_moves() {
    assert_eq!((get_di(SalomeGridAction::Left), get_dj(SalomeGridAction::Left)), (0, -1));
    assert_eq!((get_di(SalomeGridAction::Up), get_dj(SalomeGridAction::Up)), (-1, 0));
    assert_eq!((get_di(SalomeGridAction::Right), get_dj(SalomeGridAction::Right)), (0, 1));
    assert_eq!((get_di(SalomeGridAction::Down), get_dj(SalomeGridAction::Down)), (1, 0));
    assert_eq!(SalomeGridAction::Down.inner(), SalomeGridAction::Down);
}

#[test]
fn search_rescue_constructors() {
    let statuses = [ObstacleStatus::NotRemoved; 4];
    let s = SearchRescueState::new(2, 3, VictimStatus::Unknown, statuses);
    let t = SearchRescueState::from_coordinate(Coordinate::new(2, 3), VictimStatus::Unknown, statuses);
    assert_eq!(s, t);
    assert_eq!(s.coordinate, Coordinate { i: 2, j: 3 });
    let p = SearchRescueParameter::new(Coordinate::new(0, 0), ObstacleCompatibility::Low);
    assert_eq!(p.obstacle_compatibility, ObstacleCompatibility::Low);
    let m = SearchRescuePartialMDP::new(4, 5, vec![(1, 1)], Coordinate::new(3, 4));
    assert_eq!((m.height, m.width), (4, 5));
    assert_eq!(m.obstacles, vec![(1, 1)]);
}
