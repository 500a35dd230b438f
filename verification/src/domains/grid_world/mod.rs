mod from_lines;
mod grid_status;
mod grid_world_state;

pub use from_lines::{
    first_bad_char, first_bad_in_row, last_start, last_start_in_row, spec_initial_state,
    spec_row_statuses, GridWorldMap, GridWorldParseError,
};
pub use grid_status::{spec_status_of, GridStatus};
pub use grid_world_state::{GridWorldAction, GridWorldState};
