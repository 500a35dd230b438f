use vstd::prelude::*;

use super::location::Location;

verus! {

/// Whether some block is at location `l`.
pub(crate) fn contains<const N: usize>(locations: &[Location; N], l: Location) -> (r: bool)
    ensures
        r == locations@.contains(l),
{
    let mut flag = false;
    for i in 0..N
        invariant
            locations@.len() == N,
            flag <==> exists|k: int| 0 <= k < i && locations@[k] == l,
    {
        if locations[i] == l {
            flag = true;
        }
    }
    flag
}

} // verus!
