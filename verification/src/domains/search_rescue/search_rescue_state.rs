use vstd::prelude::*;

use super::coordinate::Coordinate;

verus! {

/// Whether an obstacle has been cleared.
#[derive(Eq, PartialEq, Debug, Copy, Clone, Hash, Structural)]
pub enum ObstacleStatus {
    Removed,
    NotRemoved,
}

/// What the rescuer knows of the victim: not yet found, found, or brought
/// back to the base.
#[derive(Eq, PartialEq, Debug, Copy, Clone, Hash, Structural)]
pub enum VictimStatus {
    Unknown,
    Found,
    Rescued,
}

/// The rescuer's cell, the victim's status and the status of each of the
/// four obstacles.
#[derive(Eq, PartialEq, Debug, Copy, Clone, Hash)]
pub struct SearchRescueState {
    pub coordinate: Coordinate,
    pub victim_status: VictimStatus,
    pub obstacles_status: [ObstacleStatus; 4],
}

impl SearchRescueState {
    pub fn new(
        i: i64,
        j: i64,
        victim_status: VictimStatus,
        obstacles_status: [ObstacleStatus; 4],
    ) -> (r: SearchRescueState)
        ensures
            r.coordinate == (Coordinate { i, j }),
            r.victim_status == victim_status,
            r.obstacles_status == obstacles_status,
    {
        SearchRescueState {
            coordinate: Coordinate::new(i, j),
            victim_status: victim_status,
            obstacles_status: obstacles_status,
        }
    }

    pub fn from_coordinate(
        coordinate: Coordinate,
        victim_status: VictimStatus,
        obstacles_status: [ObstacleStatus; 4],
    ) -> (r: SearchRescueState)
        ensures
            r.coordinate == coordinate,
            r.victim_status == victim_status,
            r.obstacles_status == obstacles_status,
    {
        SearchRescueState {
            coordinate: coordinate,
            victim_status: victim_status,
            obstacles_status: obstacles_status,
        }
    }
}

} // verus!
