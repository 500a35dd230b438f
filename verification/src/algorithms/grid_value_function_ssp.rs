use vstd::prelude::*;

verus! {

/// How a grid value function picks an action: by a one-step lookahead over
/// interpolated values, or by first drawing one of the surrounding grid
/// points and looking ahead from there.
#[derive(Eq, PartialEq, Debug, Copy, Clone, Hash, Structural)]
pub enum PolicyType {
    OneStepLookAhead,
    SnatchGridPoint,
}

} // verus!
