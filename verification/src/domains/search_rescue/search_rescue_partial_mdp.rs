use vstd::prelude::*;

use super::coordinate::Coordinate;

verus! {

/// How easily the rescuer clears an obstacle.
#[derive(Eq, PartialEq, Debug, Copy, Clone, Hash, Structural)]
pub enum ObstacleCompatibility {
    Low,
    High,
}

/// The parameters the observer is uncertain of: where the base is and how
/// well the rescuer clears obstacles.
#[derive(PartialEq, Debug, Clone)]
pub struct SearchRescueParameter {
    pub base_coordinate: Coordinate,
    pub obstacle_compatibility: ObstacleCompatibility,
}

impl SearchRescueParameter {
    pub fn new(base_coordinate: Coordinate, obstacle_compatibility: ObstacleCompatibility) -> (r:
        SearchRescueParameter)
        ensures
            r.base_coordinate == base_coordinate,
            r.obstacle_compatibility == obstacle_compatibility,
    {
        SearchRescueParameter {
            base_coordinate: base_coordinate,
            obstacle_compatibility: obstacle_compatibility,
        }
    }
}

/// A search-and-rescue grid without its parameters.
#[derive(PartialEq, Debug, Clone)]
pub struct SearchRescuePartialMDP {
    pub height: usize,
    pub width: usize,
    pub obstacles: Vec<(usize, usize)>,
    pub victim_coordinate: Coordinate,
}

impl SearchRescuePartialMDP {
    pub fn new(
        height: usize,
        width: usize,
        obstacles: Vec<(usize, usize)>,
        victim_coordinate: Coordinate,
    ) -> (r: SearchRescuePartialMDP)
        ensures
            r.height == height,
            r.width == width,
            r.obstacles@ == obstacles@,
            r.victim_coordinate == victim_coordinate,
    {
        SearchRescuePartialMDP {
            width: width,
            height: height,
            obstacles: obstacles,
            victim_coordinate: victim_coordinate,
        }
    }
}

} // verus!
