mod cell_status;

pub use cell_status::CellStatus;
