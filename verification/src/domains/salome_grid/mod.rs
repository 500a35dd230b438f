mod action;

pub use action::{get_di, get_dj, lemma_moves_one_cell, spec_di, spec_dj, SalomeGridAction};
