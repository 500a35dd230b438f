pub mod race_track_action;
pub mod race_track_state;

pub use race_track_action::{get_ddx, get_ddy, RaceTrackAction};
pub use race_track_state::{RaceTrackState, RaceTrackStateInner};
