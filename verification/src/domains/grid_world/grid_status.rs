use vstd::prelude::*;

verus! {

/// What a cell of a grid world holds.
#[derive(Eq, PartialEq, Debug, Copy, Clone, Hash, Structural)]
pub enum GridStatus {
    Wall,
    Goal,
    Start,
    Blank,
    Watery,
}

/// The cell a map character stands for: `x` wall, `G` goal, `S` start,
/// `.` blank, `@` water; any other character stands for nothing.
pub open spec fn spec_status_of(c: char) -> Option<GridStatus> {
    if c == 'x' {
        Some(GridStatus::Wall)
    } else if c == 'G' {
        Some(GridStatus::Goal)
    } else if c == 'S' {
        Some(GridStatus::Start)
    } else if c == '.' {
        Some(GridStatus::Blank)
    } else if c == '@' {
        Some(GridStatus::Watery)
    } else {
        None
    }
}

pub(crate) fn status_of(c: char) -> (r: Option<GridStatus>)
    ensures
        r == spec_status_of(c),
{
    match c {
        'x' => Some(GridStatus::Wall),
        'G' => Some(GridStatus::Goal),
        'S' => Some(GridStatus::Start),
        '.' => Some(GridStatus::Blank),
        '@' => Some(GridStatus::Watery),
        _ => None,
    }
}

} // verus!
