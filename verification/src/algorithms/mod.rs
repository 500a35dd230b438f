pub mod grid_value_function_ssp;

pub use grid_value_function_ssp::PolicyType;
