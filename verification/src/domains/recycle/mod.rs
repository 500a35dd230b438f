mod action;
mod communication;
mod location;

pub use action::{RecycleAction, RecycleCommunicationAction, RecycleJointAction};
pub use communication::{enumerate_communication_actions, spec_communication_actions};
pub use location::Location;
