//! Completion in BibTeX documents.

pub mod entry_type;
