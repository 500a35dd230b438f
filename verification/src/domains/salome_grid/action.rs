use vstd::prelude::*;

verus! {

/// Moves on a grid whose rows grow downwards.
#[derive(Eq, PartialEq, Debug, Copy, Clone, Hash, Structural)]
pub enum SalomeGridAction {
    Left,
    Up,
    Right,
    Down,
}

/// Column change of an action.
pub open spec fn spec_dj(a: SalomeGridAction) -> int {
    match a {
        SalomeGridAction::Left => -1,
        SalomeGridAction::Right => 1,
        _ => 0,
    }
}

/// Row change of an action.
pub open spec fn spec_di(a: SalomeGridAction) -> int {
    match a {
        SalomeGridAction::Up => -1,
        SalomeGridAction::Down => 1,
        _ => 0,
    }
}

impl SalomeGridAction {
    /// The domain action a joint action carries; for a plain move, itself.
    pub fn inner(&self) -> (r: SalomeGridAction)
        ensures
            r == *self,
    {
        *self
    }
}

pub fn get_dj(a: SalomeGridAction) -> (r: i32)
    ensures
        r == spec_dj(a),
{
    match a {
        SalomeGridAction::Left => -1,
        SalomeGridAction::Up => 0,
        SalomeGridAction::Right => 1,
        SalomeGridAction::Down => 0,
    }
}

pub fn get_di(a: SalomeGridAction) -> (r: i32)
    ensures
        r == spec_di(a),
{
    match a {
        SalomeGridAction::Left => 0,
        SalomeGridAction::Up => -1,
        SalomeGridAction::Right => 0,
        SalomeGridAction::Down => 1,
    }
}

/// Every move goes to a neighbouring cell: exactly one coordinate changes,
/// by one.
pub proof fn lemma_moves_one_cell(a: SalomeGridAction)
    ensures
        vstd::math::abs(spec_di(a)) + vstd::math::abs(spec_dj(a)) == 1,
{
}

} // verus!
