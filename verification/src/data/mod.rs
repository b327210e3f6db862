//! Fixed knowledge about the languages.

pub mod language;
