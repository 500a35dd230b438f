use vstd::prelude::*;

use super::action::RecycleCommunicationAction;
use super::location::Location;

verus! {

/// What the robot can say: nothing, or one of the three bins.
pub open spec fn spec_communication_actions() -> Seq<RecycleCommunicationAction> {
    seq![
        RecycleCommunicationAction::NoAnnouncement,
        RecycleCommunicationAction::Announce(Location::Recycle),
        RecycleCommunicationAction::Announce(Location::Compost),
        RecycleCommunicationAction::Announce(Location::Trash),
    ]
}

pub fn enumerate_communication_actions() -> (r: Vec<RecycleCommunicationAction>)
    ensures
        r@ == spec_communication_actions(),
{
    let mut r: Vec<RecycleCommunicationAction> = Vec::new();
    r.push(RecycleCommunicationAction::NoAnnouncement);
    r.push(RecycleCommunicationAction::Announce(Location::Recycle));
    r.push(RecycleCommunicationAction::Announce(Location::Compost));
    r.push(RecycleCommunicationAction::Announce(Location::Trash));
    assert(r@ =~= spec_communication_actions());
    r
}

} // verus!
