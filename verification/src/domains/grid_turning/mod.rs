mod direction;
mod grid_turning_action;
mod grid_turning_pair;
mod grid_turning_state;

pub use direction::{
    get_di, get_dj, lemma_half_turn_reverses, lemma_turns_cancel, spec_clockwise_index,
    spec_di, spec_dj, spec_turn_left, spec_turn_right, turn_left, turn_right, veer_left,
    veer_right, Direction,
};
pub use grid_turning_action::GridTurningAction;
pub use grid_turning_pair::{GridTurningPair, GridTurningPairs};
pub use grid_turning_state::GridTurningState;
