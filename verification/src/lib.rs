//! Feature resolution for a LaTeX and BibTeX language service.
//!
//! Given a cursor position inside a parsed document, the providers in this
//! crate decide which completions apply there and compute the text edits that
//! rename a label in every document of a project. Each provider states, as a
//! relation between a request and an output, what it returns.

pub mod completion;
pub mod data;
pub mod feature;
pub mod protocol;
pub mod rename;
pub mod syntax;
pub mod workspace;
