use vstd::prelude::*;

verus! {

/// Moves in the four compass directions.
#[derive(Eq, PartialEq, Debug, Copy, Clone, Hash, Structural)]
pub enum SearchRescueAction {
    North,
    South,
    East,
    West,
}

/// Column change of an action (east is positive).
pub open spec fn spec_dj(a: SearchRescueAction) -> int {
    match a {
        SearchRescueAction::East => 1,
        SearchRescueAction::West => -1,
        _ => 0,
    }
}

/// Row change of an action (south is positive).
pub open spec fn spec_di(a: SearchRescueAction) -> int {
    match a {
        SearchRescueAction::North => -1,
        SearchRescueAction::South => 1,
        _ => 0,
    }
}

pub(crate) fn get_dj(a: &SearchRescueAction) -> (r: i64)
    ensures
        r == spec_dj(*a),
{
    match a {
        SearchRescueAction::North => 0,
        SearchRescueAction::South => 0,
        SearchRescueAction::East => 1,
        SearchRescueAction::West => -1,
    }
}

pub(crate) fn get_di(a: &SearchRescueAction) -> (r: i64)
    ensures
        r == spec_di(*a),
{
    match a {
        SearchRescueAction::North => -1,
        SearchRescueAction::South => 1,
        SearchRescueAction::East => 0,
        SearchRescueAction::West => 0,
    }
}

} // verus!
