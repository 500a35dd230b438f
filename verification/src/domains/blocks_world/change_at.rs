use vstd::prelude::*;

use super::location::Location;

verus! {

/// The locations with the `i`-th one replaced by `l`.
pub(crate) fn change_at<const N: usize>(locations: [Location; N], i: usize, l: Location) -> (r: [Location; N])
    requires
        i < N,
    ensures
        r@ == locations@.update(i as int, l),
{
    let mut locations = locations;
    locations[i] = l;
    locations
}

} // verus!
