use vstd::prelude::*;

use super::location::Location;

verus! {

/// Move item `k` to a location, or pick item `k` up.
#[derive(Debug, Clone, Copy, PartialEq, Eq, Hash, Structural)]
pub enum RecycleAction {
    Moveto(usize, Location),
    PickUp(usize),
}

/// Announce a bin to the observer, or say nothing.
#[derive(Debug, Clone, Copy, PartialEq, Eq, Hash, Structural)]
pub enum RecycleCommunicationAction {
    Announce(Location),
    NoAnnouncement,
}

/// A physical action paired with what the robot says while doing it.
#[derive(Debug, Clone, Copy, PartialEq, Eq, Hash, Structural)]
pub struct RecycleJointAction {
    pub domain_action: RecycleAction,
    pub communication_action: RecycleCommunicationAction,
}

impl RecycleJointAction {
    pub fn new(domain_action: RecycleAction, communication_action: RecycleCommunicationAction) -> (r:
        Self)
        ensures
            r.domain_action == domain_action,
            r.communication_action == communication_action,
    {
        Self { domain_action: domain_action, communication_action: communication_action }
    }

    /// The physical part of the joint action.
    pub fn inner(&self) -> (r: RecycleAction)
        ensures
            r == self.domain_action,
    {
        self.domain_action
    }

    /// Replaces what the robot says, keeping the physical action.
    pub fn set_message(&mut self, m: RecycleCommunicationAction)
        ensures
            final(self).communication_action == m,
            final(self).domain_action == old(self).domain_action,
    {
        self.communication_action = m;
    }

    /// Replaces the physical action, keeping what the robot says.
    pub fn set_domain_action(&mut self, m: RecycleAction)
        ensures
            final(self).domain_action == m,
            final(self).communication_action == old(self).communication_action,
    {
        self.domain_action = m;
    }
}

impl From<(RecycleAction, RecycleCommunicationAction)> for RecycleJointAction {
    fn from(pair: (RecycleAction, RecycleCommunicationAction)) -> (r: Self) {
        Self::new(pair.0, pair.1)
    }
}

impl vstd::std_specs::convert::FromSpecImpl<(RecycleAction, RecycleCommunicationAction)> for RecycleJointAction {
    open spec fn obeys_from_spec() -> bool {
        true
    }

    open spec fn from_spec(pair: (RecycleAction, RecycleCommunicationAction)) -> Self {
        RecycleJointAction { domain_action: pair.0, communication_action: pair.1 }
    }
}

impl From<RecycleAction> for RecycleJointAction {
    fn from(a: RecycleAction) -> (r: Self) {
        Self::new(a, RecycleCommunicationAction::NoAnnouncement)
    }
}

impl vstd::std_specs::convert::FromSpecImpl<RecycleAction> for RecycleJointAction {
    open spec fn obeys_from_spec() -> bool {
        true
    }

    open spec fn from_spec(a: RecycleAction) -> Self {
        RecycleJointAction { domain_action: a, communication_action: RecycleCommunicationAction::NoAnnouncement }
    }
}

} // verus!
