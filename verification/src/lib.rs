//! Domains, action models and planning helpers for observer-aware Markov
//! decision processes, with their behaviour stated as Verus contracts.
pub mod algorithms;
pub mod common;
pub mod domain_evaluator;
pub mod domains;
pub mod sampling;
pub mod text;
