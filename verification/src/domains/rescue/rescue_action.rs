use vstd::prelude::*;

verus! {

/// Moves in the four compass directions, or clearing the obstacle in the
/// current cell.
#[derive(Eq, PartialEq, Debug, Copy, Clone, Hash, Structural)]
pub enum RescueAction {
    North,
    South,
    East,
    West,
    RemoveObstacle,
}

/// Column change of an action (east is positive).
pub open spec fn spec_dj(a: RescueAction) -> int {
    match a {
        RescueAction::East => 1,
        RescueAction::West => -1,
        _ => 0,
    }
}

/// Row change of an action (south is positive).
pub open spec fn spec_di(a: RescueAction) -> int {
    match a {
        RescueAction::North => -1,
        RescueAction::South => 1,
        _ => 0,
    }
}

pub(crate) fn get_dj(a: &RescueAction) -> (r: i32)
    ensures
        r == spec_dj(*a),
{
    match a {
        RescueAction::North => 0,
        RescueAction::South => 0,
        RescueAction::East => 1,
        RescueAction::West => -1,
        RescueAction::RemoveObstacle => 0,
    }
}

pub(crate) fn get_di(a: &RescueAction) -> (r: i32)
    ensures
        r == spec_di(*a),
{
    match a {
        RescueAction::North => -1,
        RescueAction::South => 1,
        RescueAction::East => 0,
        RescueAction::West => 0,
        RescueAction::RemoveObstacle => 0,
    }
}

} // verus!
