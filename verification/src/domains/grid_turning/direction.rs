use vstd::prelude::*;

verus! {

/// The eight compass headings, listed clockwise from east.
#[derive(Eq, PartialEq, Debug, Copy, Clone, Hash, Structural)]
pub enum Direction {
    East,
    SouthEast,
    South,
    SouthWest,
    West,
    NorthWest,
    North,
    NorthEast,
}

/// Position of a heading in the clockwise listing, east being 0.
pub open spec fn spec_clockwise_index(d: Direction) -> int {
    match d {
        Direction::East => 0,
        Direction::SouthEast => 1,
        Direction::South => 2,
        Direction::SouthWest => 3,
        Direction::West => 4,
        Direction::NorthWest => 5,
        Direction::North => 6,
        Direction::NorthEast => 7,
    }
}

/// The heading one eighth of a turn clockwise from `d`.
pub open spec fn spec_turn_right(d: Direction) -> Direction {
    match d {
        Direction::North => Direction::NorthEast,
        Direction::South => Direction::SouthWest,
        Direction::East => Direction::SouthEast,
        Direction::West => Direction::NorthWest,
        Direction::NorthEast => Direction::East,
        Direction::NorthWest => Direction::North,
        Direction::SouthEast => Direction::South,
        Direction::SouthWest => Direction::West,
    }
}

/// The heading one eighth of a turn anticlockwise from `d`.
pub open spec fn spec_turn_left(d: Direction) -> Direction {
    match d {
        Direction::North => Direction::NorthWest,
        Direction::South => Direction::SouthEast,
        Direction::East => Direction::NorthEast,
        Direction::West => Direction::SouthWest,
        Direction::NorthEast => Direction::North,
        Direction::NorthWest => Direction::West,
        Direction::SouthEast => Direction::East,
        Direction::SouthWest => Direction::South,
    }
}

/// Column change of one step in heading `d` (east is positive).
pub open spec fn spec_dj(d: Direction) -> int {
    match d {
        Direction::East | Direction::NorthEast | Direction::SouthEast => 1,
        Direction::West | Direction::NorthWest | Direction::SouthWest => -1,
        _ => 0,
    }
}

/// Row change of one step in heading `d` (south is positive).
pub open spec fn spec_di(d: Direction) -> int {
    match d {
        Direction::South | Direction::SouthEast | Direction::SouthWest => 1,
        Direction::North | Direction::NorthEast | Direction::NorthWest => -1,
        _ => 0,
    }
}

pub fn turn_right(direction: Direction) -> (r: Direction)
    ensures
        r == spec_turn_right(direction),
        spec_clockwise_index(r) == (spec_clockwise_index(direction) + 1) % 8,
{
    match direction {
        Direction::North => Direction::NorthEast,
        Direction::South => Direction::SouthWest,
        Direction::East => Direction::SouthEast,
        Direction::West => Direction::NorthWest,
        Direction::NorthEast => Direction::East,
        Direction::NorthWest => Direction::North,
        Direction::SouthEast => Direction::South,
        Direction::SouthWest => Direction::West,
    }
}

pub fn veer_right(direction: Direction) -> (r: Direction)
    ensures
        r == spec_turn_right(spec_turn_right(direction)),
        spec_clockwise_index(r) == (spec_clockwise_index(direction) + 2) % 8,
{
    turn_right(turn_right(direction))
}

pub fn turn_left(direction: Direction) -> (r: Direction)
    ensures
        r == spec_turn_left(direction),
        spec_clockwise_index(r) == (spec_clockwise_index(direction) + 7) % 8,
{
    match direction {
        Direction::North => Direction::NorthWest,
        Direction::South => Direction::SouthEast,
        Direction::East => Direction::NorthEast,
        Direction::West => Direction::SouthWest,
        Direction::NorthEast => Direction::North,
        Direction::NorthWest => Direction::West,
        Direction::SouthEast => Direction::East,
        Direction::SouthWest => Direction::South,
    }
}

pub fn veer_left(direction: Direction) -> (r: Direction)
    ensures
        r == spec_turn_left(spec_turn_left(direction)),
        spec_clockwise_index(r) == (spec_clockwise_index(direction) + 6) % 8,
{
    turn_left(turn_left(direction))
}

pub fn get_dj(d: Direction) -> (r: i32)
    ensures
        r == spec_dj(d),
{
    match d {
        Direction::North => 0,
        Direction::South => 0,
        Direction::East => 1,
        Direction::West => -1,
        Direction::NorthEast => 1,
        Direction::NorthWest => -1,
        Direction::SouthEast => 1,
        Direction::SouthWest => -1,
    }
}

pub fn get_di(d: Direction) -> (r: i32)
    ensures
        r == spec_di(d),
{
    match d {
        Direction::North => -1,
        Direction::South => 1,
        Direction::East => 0,
        Direction::West => 0,
        Direction::NorthEast => -1,
        Direction::NorthWest => -1,
        Direction::SouthEast => 1,
        Direction::SouthWest => 1,
    }
}

/// Turning left undoes turning right and vice versa; veering (two eighths)
/// left undoes veering right; eight right turns bring the heading back.
pub proof fn lemma_turns_cancel(d: Direction)
    ensures
        spec_turn_left(spec_turn_right(d)) == d,
        spec_turn_right(spec_turn_left(d)) == d,
        spec_turn_left(spec_turn_left(spec_turn_right(spec_turn_right(d)))) == d,
        spec_turn_right(
            spec_turn_right(
                spec_turn_right(
                    spec_turn_right(
                        spec_turn_right(spec_turn_right(spec_turn_right(spec_turn_right(d)))),
                    ),
                ),
            ),
        ) == d,
{
}

/// Every heading moves to one of the eight neighbouring cells, and a half
/// turn (two veers) reverses the step.
pub proof fn lemma_half_turn_reverses(d: Direction)
    ensures
        -1 <= spec_di(d) <= 1,
        -1 <= spec_dj(d) <= 1,
        spec_di(d) != 0 || spec_dj(d) != 0,
        spec_di(spec_turn_right(spec_turn_right(spec_turn_right(spec_turn_right(d))))) == -spec_di(
            d,
        ),
        spec_dj(spec_turn_right(spec_turn_right(spec_turn_right(spec_turn_right(d))))) == -spec_dj(
            d,
        ),
{
}

/// A step's row and column change turn with the heading.  North is one row
/// up and east one column right; a quarter turn clockwise (two right turns)
/// rotates the step a quarter turn clockwise, `(di, dj)` becoming
/// `(dj, -di)`; each diagonal step is the sum of the two steps beside it;
/// and no two headings step alike.
pub proof fn lemma_steps_turn_with_heading(d: Direction, e: Direction)
    ensures
        spec_di(Direction::North) == -1 && spec_dj(Direction::North) == 0,
        spec_di(Direction::East) == 0 && spec_dj(Direction::East) == 1,
        spec_di(spec_turn_right(spec_turn_right(d))) == spec_dj(d),
        spec_dj(spec_turn_right(spec_turn_right(d))) == -spec_di(d),
        spec_clockwise_index(d) % 2 == 1 ==> spec_di(d) == spec_di(spec_turn_left(d)) + spec_di(
            spec_turn_right(d),
        ) && spec_dj(d) == spec_dj(spec_turn_left(d)) + spec_dj(spec_turn_right(d)),
        spec_di(d) == spec_di(e) && spec_dj(d) == spec_dj(e) ==> d == e,
{
}

} // verus!
