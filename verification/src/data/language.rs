//! The entry types of BibTeX.

use vstd::prelude::*;

verus! {

/// An entry type and a sentence that says what it is for.
#[derive(Clone, Debug, PartialEq, Eq)]
pub struct BibtexEntryTypeDoc {
    pub name: String,
    pub documentation: String,
}

/// What an entry type says: its name and its documentation.
pub struct BibtexEntryTypeDocView {
    pub name: Seq<char>,
    pub documentation: Seq<char>,
}

impl View for BibtexEntryTypeDoc {
    type V = BibtexEntryTypeDocView;

    open spec fn view(&self) -> BibtexEntryTypeDocView {
        BibtexEntryTypeDocView { name: self.name@, documentation: self.documentation@ }
    }
}

/// The entry types, in the order in which they are offered.
pub open spec fn entry_type_table() -> Seq<BibtexEntryTypeDocView> {
    seq![
        BibtexEntryTypeDocView {
            name: "article"@,
            documentation: "An article in a journal, magazine or newspaper."@,
        },
        BibtexEntryTypeDocView { name: "book"@, documentation: "A book with a publisher."@ },
        BibtexEntryTypeDocView {
            name: "booklet"@,
            documentation: "A printed and bound work without a named publisher."@,
        },
        BibtexEntryTypeDocView {
            name: "conference"@,
            documentation: "An article in the proceedings of a conference."@,
        },
        BibtexEntryTypeDocView {
            name: "inbook"@,
            documentation: "A part of a book, such as a chapter or a range of pages."@,
        },
        BibtexEntryTypeDocView {
            name: "incollection"@,
            documentation: "A part of a book that has a title of its own."@,
        },
        BibtexEntryTypeDocView {
            name: "inproceedings"@,
            documentation: "An article in the proceedings of a conference."@,
        },
        BibtexEntryTypeDocView { name: "manual"@, documentation: "Technical documentation."@ },
        BibtexEntryTypeDocView {
            name: "mastersthesis"@,
            documentation: "A thesis for a master's degree."@,
        },
        BibtexEntryTypeDocView { name: "misc"@, documentation: "A work that fits no other type."@ },
        BibtexEntryTypeDocView { name: "phdthesis"@, documentation: "A thesis for a doctorate."@ },
        BibtexEntryTypeDocView { name: "proceedings"@, documentation: "The proceedings of a conference."@ },
        BibtexEntryTypeDocView {
            name: "techreport"@,
            documentation: "A report published by a school or another institution."@,
        },
        BibtexEntryTypeDocView {
            name: "unpublished"@,
            documentation: "A work with an author and a title that was never published."@,
        },
    ]
}

/// The entry types of a list, each taken as what it says.
pub open spec fn entry_types_view(types: Seq<BibtexEntryTypeDoc>) -> Seq<BibtexEntryTypeDocView> {
    types.map_values(|ty: BibtexEntryTypeDoc| ty@)
}

fn entry_type(name: &str, documentation: &str) -> (ty: BibtexEntryTypeDoc)
    ensures
        ty@ == (BibtexEntryTypeDocView { name: name@, documentation: documentation@ }),
{
    BibtexEntryTypeDoc { name: name.to_owned(), documentation: documentation.to_owned() }
}

/// The table of entry types.
pub fn entry_types() -> (types: Vec<BibtexEntryTypeDoc>)
    ensures
        entry_types_view(types@) == entry_type_table(),
{
    let mut types: Vec<BibtexEntryTypeDoc> = Vec::new();
    types.push(entry_type("article", "An article in a journal, magazine or newspaper."));
    types.push(entry_type("book", "A book with a publisher."));
    types.push(entry_type("booklet", "A printed and bound work without a named publisher."));
    types.push(entry_type("conference", "An article in the proceedings of a conference."));
    types.push(entry_type("inbook", "A part of a book, such as a chapter or a range of pages."));
    types.push(entry_type("incollection", "A part of a book that has a title of its own."));
    types.push(entry_type("inproceedings", "An article in the proceedings of a conference."));
    types.push(entry_type("manual", "Technical documentation."));
    types.push(entry_type("mastersthesis", "A thesis for a master's degree."));
    types.push(entry_type("misc", "A work that fits no other type."));
    types.push(entry_type("phdthesis", "A thesis for a doctorate."));
    types.push(entry_type("proceedings", "The proceedings of a conference."));
    types.push(entry_type("techreport", "A report published by a school or another institution."));
    types.push(entry_type("unpublished", "A work with an author and a title that was never published."));
    assert(entry_types_view(types@) =~= entry_type_table());
    types
}

} // verus!
