use vstd::prelude::*;

verus! {

/// The nine accelerations a race car can choose at every step.
#[derive(Eq, PartialEq, Debug, Copy, Clone, Hash, Structural)]
pub enum RaceTrackAction {
    North,
    South,
    East,
    West,
    NorthEast,
    NorthWest,
    SouthEast,
    SouthWest,
    Keep,
}

/// Horizontal component of the acceleration chosen by `a`.
pub open spec fn spec_ddx(a: RaceTrackAction) -> int {
    match a {
        RaceTrackAction::East | RaceTrackAction::NorthEast | RaceTrackAction::SouthEast => 1,
        RaceTrackAction::West | RaceTrackAction::NorthWest | RaceTrackAction::SouthWest => -1,
        _ => 0,
    }
}

/// Vertical component of the acceleration chosen by `a` (north is positive).
pub open spec fn spec_ddy(a: RaceTrackAction) -> int {
    match a {
        RaceTrackAction::North | RaceTrackAction::NorthEast | RaceTrackAction::NorthWest => 1,
        RaceTrackAction::South | RaceTrackAction::SouthEast | RaceTrackAction::SouthWest => -1,
        _ => 0,
    }
}

/// Short variable name of an action: the initials of its compass direction,
/// or `K` for keeping the current velocity.
pub open spec fn spec_action_var_name(a: RaceTrackAction) -> Seq<char> {
    match a {
        RaceTrackAction::North => seq!['N'],
        RaceTrackAction::South => seq!['S'],
        RaceTrackAction::East => seq!['E'],
        RaceTrackAction::West => seq!['W'],
        RaceTrackAction::NorthEast => seq!['N', 'E'],
        RaceTrackAction::NorthWest => seq!['N', 'W'],
        RaceTrackAction::SouthEast => seq!['S', 'E'],
        RaceTrackAction::SouthWest => seq!['S', 'W'],
        RaceTrackAction::Keep => seq!['K'],
    }
}

pub fn get_ddx(a: RaceTrackAction) -> (r: i32)
    ensures
        r == spec_ddx(a),
{
    match a {
        RaceTrackAction::North => 0,
        RaceTrackAction::South => 0,
        RaceTrackAction::East => 1,
        RaceTrackAction::West => -1,
        RaceTrackAction::NorthEast => 1,
        RaceTrackAction::NorthWest => -1,
        RaceTrackAction::SouthEast => 1,
        RaceTrackAction::SouthWest => -1,
        RaceTrackAction::Keep => 0,
    }
}

pub fn get_ddy(a: RaceTrackAction) -> (r: i32)
    ensures
        r == spec_ddy(a),
{
    match a {
        RaceTrackAction::North => 1,
        RaceTrackAction::South => -1,
        RaceTrackAction::East => 0,
        RaceTrackAction::West => 0,
        RaceTrackAction::NorthEast => 1,
        RaceTrackAction::NorthWest => 1,
        RaceTrackAction::SouthEast => -1,
        RaceTrackAction::SouthWest => -1,
        RaceTrackAction::Keep => 0,
    }
}

impl RaceTrackAction {
    pub fn to_var_name(&self) -> (r: String)
        ensures
            r@ == spec_action_var_name(*self),
    {
        let name = match self {
            RaceTrackAction::North => "N",
            RaceTrackAction::South => "S",
            RaceTrackAction::East => "E",
            RaceTrackAction::West => "W",
            RaceTrackAction::NorthEast => "NE",
            RaceTrackAction::NorthWest => "NW",
            RaceTrackAction::SouthEast => "SE",
            RaceTrackAction::SouthWest => "SW",
            RaceTrackAction::Keep => "K",
        };
        proof {
            reveal_strlit("N");
            reveal_strlit("S");
            reveal_strlit("E");
            reveal_strlit("W");
            reveal_strlit("NE");
            reveal_strlit("NW");
            reveal_strlit("SE");
            reveal_strlit("SW");
            reveal_strlit("K");
        }
        String::from_str(name)
    }
}

/// Every acceleration changes each velocity component by at most one, and
/// only `Keep` leaves both components unchanged.
pub proof fn lemma_acceleration_is_unit(a: RaceTrackAction)
    ensures
        -1 <= spec_ddx(a) <= 1,
        -1 <= spec_ddy(a) <= 1,
        (spec_ddx(a) == 0 && spec_ddy(a) == 0) <==> a == RaceTrackAction::Keep,
{
}

/// The accelerations are the nine unit vectors of the compass: north is
/// `(0, 1)` and east `(1, 0)`; south and west are their opposites; each
/// diagonal is the sum of its two compass parts; `Keep` is zero; and no two
/// actions accelerate alike.
pub proof fn lemma_accelerations_follow_compass(a: RaceTrackAction, b: RaceTrackAction)
    ensures
        spec_ddx(RaceTrackAction::North) == 0 && spec_ddy(RaceTrackAction::North) == 1,
        spec_ddx(RaceTrackAction::East) == 1 && spec_ddy(RaceTrackAction::East) == 0,
        spec_ddx(RaceTrackAction::South) == -spec_ddx(RaceTrackAction::North) && spec_ddy(
            RaceTrackAction::South,
        ) == -spec_ddy(RaceTrackAction::North),
        spec_ddx(RaceTrackAction::West) == -spec_ddx(RaceTrackAction::East) && spec_ddy(
            RaceTrackAction::West,
        ) == -spec_ddy(RaceTrackAction::East),
        spec_ddx(RaceTrackAction::NorthEast) == spec_ddx(RaceTrackAction::North) + spec_ddx(
            RaceTrackAction::East,
        ) && spec_ddy(RaceTrackAction::NorthEast) == spec_ddy(RaceTrackAction::North) + spec_ddy(
            RaceTrackAction::East,
        ),
        spec_ddx(RaceTrackAction::NorthWest) == spec_ddx(RaceTrackAction::North) + spec_ddx(
            RaceTrackAction::West,
        ) && spec_ddy(RaceTrackAction::NorthWest) == spec_ddy(RaceTrackAction::North) + spec_ddy(
            RaceTrackAction::West,
        ),
        spec_ddx(RaceTrackAction::SouthEast) == spec_ddx(RaceTrackAction::South) + spec_ddx(
            RaceTrackAction::East,
        ) && spec_ddy(RaceTrackAction::SouthEast) == spec_ddy(RaceTrackAction::South) + spec_ddy(
            RaceTrackAction::East,
        ),
        spec_ddx(RaceTrackAction::SouthWest) == spec_ddx(RaceTrackAction::South) + spec_ddx(
            RaceTrackAction::West,
        ) && spec_ddy(RaceTrackAction::SouthWest) == spec_ddy(RaceTrackAction::South) + spec_ddy(
            RaceTrackAction::West,
        ),
        spec_ddx(RaceTrackAction::Keep) == 0 && spec_ddy(RaceTrackAction::Keep) == 0,
        spec_ddx(a) == spec_ddx(b) && spec_ddy(a) == spec_ddy(b) ==> a == b,
{
}

} // verus!
