pub mod baker_grid;
pub mod blocks_world;
pub mod grid_turning;
pub mod grid_world;
pub mod race_track;
pub mod recycle;
pub mod rescue;
pub mod salome_grid;
pub mod search_rescue;
pub mod search_rescue_trevizan;
