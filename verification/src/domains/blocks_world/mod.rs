mod blocks_world_action;
mod blocks_world_mdp;
mod blocks_world_state;
mod change_at;
mod contains;
mod get_next_state;
mod location;

pub use blocks_world_action::BlocksWorldAction;
pub use blocks_world_mdp::{spec_action_at, spec_all_actions, BlocksWorldMDPN};
pub use blocks_world_state::{BlocksWorldState, BlocksWorldStateN};
pub use get_next_state::{
    action_in_range, lemma_next_state_keeps_validity, spec_next_locations, valid_locations,
};
pub use location::{Block, Location};
