mod rescue_action;
mod rescue_mdp;
mod rescue_partial_mdp;
mod rescue_state;

pub use rescue_action::{spec_di, spec_dj, RescueAction};
pub use rescue_mdp::{
    is_state_at, last_obstacle_at, lemma_p_mass_is_distribution, lemma_state_enumeration_complete,
    prob_sum, spec_first_prob, spec_state_index, status_of_bit, ObstacleCompatibility, RescueMDP,
};
pub use rescue_partial_mdp::RescuePartialMDP;
pub use rescue_state::{ObstacleStatus, RescueState};
