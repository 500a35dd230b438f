use vstd::prelude::*;

use crate::common::coordinate2::Coordinate2;

verus! {

/// Whether an obstacle has been cleared.
#[derive(Eq, PartialEq, Debug, Copy, Clone, Hash, Structural)]
pub enum ObstacleStatus {
    Removed,
    NotRemoved,
}

/// The rescuer's cell and the status of each of the three obstacles.
#[derive(Eq, PartialEq, Debug, Copy, Clone, Hash)]
pub struct RescueState {
    pub coordinate: Coordinate2,
    pub obstacles_status: [ObstacleStatus; 3],
}

impl RescueState {
    pub fn new(coordinate: Coordinate2, obstacles_status: [ObstacleStatus; 3]) -> (r: RescueState)
        ensures
            r.coordinate == coordinate,
            r.obstacles_status == obstacles_status,
    {
        RescueState { coordinate: coordinate, obstacles_status: obstacles_status }
    }

    /// Field-wise equality of two states.
    pub(crate) fn same_as(&self, other: &RescueState) -> (r: bool)
        ensures
            r == (self.coordinate == other.coordinate && self.obstacles_status@
                == other.obstacles_status@),
    {
        let r = self.coordinate == other.coordinate && self.obstacles_status[0]
            == other.obstacles_status[0] && self.obstacles_status[1] == other.obstacles_status[1]
            && self.obstacles_status[2] == other.obstacles_status[2];
        proof {
            if r {
                assert(self.obstacles_status@ =~= other.obstacles_status@);
            }
        }
        r
    }
}

} // verus!
