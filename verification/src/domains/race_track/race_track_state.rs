use vstd::prelude::*;

verus! {

/// Position `(x, y)` and velocity `(dx, dy)` of the race car.
#[derive(Eq, PartialEq, Debug, Copy, Clone, Hash, Structural)]
pub struct RaceTrackStateInner {
    pub x: usize,
    pub y: usize,
    pub dx: i32,
    pub dy: i32,
}

/// A race-track state: either the dummy state or a car configuration.
#[derive(Eq, PartialEq, Debug, Copy, Clone, Hash, Structural)]
pub enum RaceTrackState {
    Dummy,
    Wrapper(RaceTrackStateInner),
}

impl RaceTrackStateInner {
    pub fn new(x: usize, y: usize, dx: i32, dy: i32) -> (r: RaceTrackStateInner)
        ensures
            r == (RaceTrackStateInner { x, y, dx, dy }),
    {
        RaceTrackStateInner { x: x, y: y, dx: dx, dy: dy }
    }
}

impl RaceTrackState {
    pub fn new(x: usize, y: usize, dx: i32, dy: i32) -> (r: RaceTrackState)
        ensures
            r == RaceTrackState::Wrapper(RaceTrackStateInner { x, y, dx, dy }),
    {
        RaceTrackState::Wrapper(RaceTrackStateInner::new(x, y, dx, dy))
    }
}

} // verus!
