mod baker_grid_state;
mod baker_multi_grid_partial_mdp;
mod shape;

pub use baker_grid_state::BakerGridState;
pub use baker_multi_grid_partial_mdp::BakerMultiGridPartialMDP;
pub use shape::Shape;
