mod coordinate;
mod search_rescue_action;
mod search_rescue_partial_mdp;
mod search_rescue_state;

pub use coordinate::Coordinate;
pub use search_rescue_action::{spec_di, spec_dj, SearchRescueAction};
pub use search_rescue_partial_mdp::{
    ObstacleCompatibility, SearchRescueParameter, SearchRescuePartialMDP,
};
pub use search_rescue_state::{ObstacleStatus, SearchRescueState, VictimStatus};
