//! Documents as the workspace hands them to a request.

use crate::protocol::Uri;
use crate::syntax::{BibtexSyntaxTree, LatexSymbolTable};
use vstd::prelude::*;

verus! {

/// What was parsed out of a document, by the language it is written in.
#[derive(Clone, Debug, PartialEq, Eq)]
pub enum DocumentContent {
    Latex(LatexSymbolTable),
    Bibtex(BibtexSyntaxTree),
}

/// A snapshot of one file: its identifier, its text, and what was parsed
/// out of the text.
#[derive(Clone, Debug, PartialEq, Eq)]
pub struct Document {
    pub uri: Uri,
    pub text: String,
    pub content: DocumentContent,
}

impl DocumentContent {
    /// Nothing was parsed out of the document: no label command, or no
    /// declaration.
    pub open spec fn is_empty(&self) -> bool {
        match self {
            DocumentContent::Latex(table) => table.labels@.len() == 0,
            DocumentContent::Bibtex(tree) => tree.children@.len() == 0,
        }
    }
}

impl Document {
    pub fn new(uri: Uri, text: String, content: DocumentContent) -> (document: Document)
        ensures
            document.uri == uri,
            document.text == text,
            document.content == content,
    {
        Document { uri, text, content }
    }
}

} // verus!
