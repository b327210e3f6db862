//! Completion.

pub mod bibtex;
pub mod factory;
