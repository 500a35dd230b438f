use vstd::prelude::*;

use super::rescue_action::RescueAction;
use super::rescue_mdp::{is_state_at, last_obstacle_at, ObstacleCompatibility, RescueMDP};
use crate::common::coordinate2::Coordinate2;

verus! {

/// A rescue grid without the rescuer's obstacle compatibility, which the
/// observer does not know; `build_from` completes it.
#[derive(PartialEq, Debug, Clone)]
pub struct RescuePartialMDP {
    height: usize,
    width: usize,
    obstacles: Vec<(usize, usize)>,
    victim_coordinate: Coordinate2,
}

impl RescuePartialMDP {
    pub closed spec fn spec_height(&self) -> nat {
        self.height as nat
    }

    pub closed spec fn spec_width(&self) -> nat {
        self.width as nat
    }

    pub closed spec fn spec_obstacles(&self) -> Seq<(usize, usize)> {
        self.obstacles@
    }

    pub closed spec fn victim(&self) -> Coordinate2 {
        self.victim_coordinate
    }

    pub fn new(
        height: usize,
        width: usize,
        obstacles: Vec<(usize, usize)>,
        victim_coordinate: Coordinate2,
    ) -> (r: RescuePartialMDP)
        ensures
            r.spec_height() == height,
            r.spec_width() == width,
            r.spec_obstacles() == obstacles@,
            r.victim() == victim_coordinate,
    {
        RescuePartialMDP {
            width: width,
            height: height,
            obstacles: obstacles,
            victim_coordinate: victim_coordinate,
        }
    }

    /// The full grid for the given obstacle compatibility.
    pub fn build_from(&self, parameter: ObstacleCompatibility) -> (r: RescueMDP)
        requires
            self.spec_height() <= i32::MAX,
            self.spec_width() <= i32::MAX,
            self.spec_height() * self.spec_width() * 8 <= usize::MAX,
            forall|k: int|
                0 <= k < self.spec_obstacles().len() ==> (#[trigger] self.spec_obstacles()[k]).0
                    < self.spec_height() && self.spec_obstacles()[k].1 < self.spec_width(),
        ensures
            r.well_formed(),
            r.spec_height() == self.spec_height(),
            r.spec_width() == self.spec_width(),
            r.victim() == self.victim(),
            r.compatibility() == parameter,
            forall|i: int, j: int|
                0 <= i < self.spec_height() && 0 <= j < self.spec_width()
                    ==> #[trigger] r.obstacle_at(i, j) == last_obstacle_at(
                    self.spec_obstacles(),
                    i,
                    j,
                ),
            r.states().len() == self.spec_height() * self.spec_width() * 8,
            forall|k: int|
                0 <= k < r.states().len() ==> is_state_at(
                    #[trigger] r.states()[k],
                    self.spec_width(),
                    k,
                ),
            r.actions() == seq![
                RescueAction::North,
                RescueAction::South,
                RescueAction::East,
                RescueAction::West,
                RescueAction::RemoveObstacle,
            ],
    {
        let mut obstacles: Vec<(usize, usize)> = Vec::new();
        for k in 0..self.obstacles.len()
            invariant
                obstacles@ == self.obstacles@.take(k as int),
        {
            obstacles.push(self.obstacles[k]);
            assert(obstacles@ =~= self.obstacles@.take(k + 1));
        }
        assert(obstacles@ =~= self.obstacles@);
        RescueMDP::new(self.height, self.width, obstacles, self.victim_coordinate, parameter)
    }
}

} // verus!
