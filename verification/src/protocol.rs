//! Positions, ranges and edits, as language clients exchange them.

use vstd::prelude::*;

verus! {

/// A place in a text document: a line and a column on it, both counted from zero.
#[derive(Clone, Copy, Debug, PartialEq, Eq, Structural, Hash)]
pub struct Position {
    pub line: u32,
    pub character: u32,
}

impl Position {
    pub fn new(line: u32, character: u32) -> (position: Position)
        ensures
            position.line == line,
            position.character == character,
    {
        Position { line, character }
    }

    /// Document order, not strict: an earlier line, or the same line and no
    /// later column.
    pub open spec fn spec_at_or_before(self, other: Position) -> bool {
        self.line < other.line || (self.line == other.line && self.character <= other.character)
    }

    #[verifier::when_used_as_spec(spec_at_or_before)]
    pub fn at_or_before(self, other: Position) -> (b: bool)
        ensures
            b == self.spec_at_or_before(other),
    {
        self.line < other.line || (self.line == other.line && self.character <= other.character)
    }
}

/// The text between two positions. Both boundaries belong to the range, so a
/// cursor right behind the last character is still inside.
#[derive(Clone, Copy, Debug, PartialEq, Eq, Structural, Hash)]
pub struct Range {
    pub start: Position,
    pub end: Position,
}

impl Range {
    pub fn new(start: Position, end: Position) -> (range: Range)
        ensures
            range.start == start,
            range.end == end,
    {
        Range { start, end }
    }

    pub fn new_simple(
        start_line: u32,
        start_character: u32,
        end_line: u32,
        end_character: u32,
    ) -> (range: Range)
        ensures
            range.start.line == start_line,
            range.start.character == start_character,
            range.end.line == end_line,
            range.end.character == end_character,
    {
        Range {
            start: Position { line: start_line, character: start_character },
            end: Position { line: end_line, character: end_character },
        }
    }

    /// The position lies at or behind the start and at or before the end.
    /// A range whose end lies before its start contains nothing.
    pub open spec fn spec_contains(&self, position: Position) -> bool {
        self.start.at_or_before(position) && position.at_or_before(self.end)
    }

    #[verifier::when_used_as_spec(spec_contains)]
    pub fn contains(&self, position: Position) -> (b: bool)
        ensures
            b == self.spec_contains(position),
    {
        self.start.at_or_before(position) && position.at_or_before(self.end)
    }

    /// No position lies in both ranges.
    pub open spec fn disjoint_from(self, other: Range) -> bool {
        forall|position: Position| !(self.contains(position) && other.contains(position))
    }
}

/// The text of a document identifier: documents are the same when their
/// identifiers have the same text.
#[derive(Clone, Debug, PartialEq, Eq, Hash)]
pub struct Uri {
    pub text: String,
}

impl View for Uri {
    type V = Seq<char>;

    open spec fn view(&self) -> Seq<char> {
        self.text@
    }
}

impl Uri {
    pub fn new(text: String) -> (uri: Uri)
        ensures
            uri@ == text@,
    {
        Uri { text }
    }

    pub fn as_str(&self) -> (text: &str)
        ensures
            text@ == self@,
    {
        self.text.as_str()
    }

    /// Whether both identifiers have the same text.
    pub fn same_as(&self, other: &Uri) -> (b: bool)
        ensures
            b == (self@ == other@),
    {
        self.text == other.text
    }

    pub fn duplicate(&self) -> (uri: Uri)
        ensures
            uri@ == self@,
    {
        Uri { text: self.text.clone() }
    }
}

/// The replacement of the text in a range by another text.
#[derive(Clone, Debug, PartialEq, Eq)]
pub struct TextEdit {
    pub range: Range,
    pub new_text: String,
}

/// What a text edit says: the range and the characters that replace it.
pub struct TextEditView {
    pub range: Range,
    pub new_text: Seq<char>,
}

impl View for TextEdit {
    type V = TextEditView;

    open spec fn view(&self) -> TextEditView {
        TextEditView { range: self.range, new_text: self.new_text@ }
    }
}

impl TextEdit {
    pub fn new(range: Range, new_text: String) -> (edit: TextEdit)
        ensures
            edit@ == (TextEditView { range, new_text: new_text@ }),
    {
        TextEdit { range, new_text }
    }
}

/// The edits of a list, each taken as what it says.
pub open spec fn edits_view(edits: Seq<TextEdit>) -> Seq<TextEditView> {
    edits.map_values(|edit: TextEdit| edit@)
}

/// The edits to one document.
#[derive(Clone, Debug, PartialEq, Eq)]
pub struct DocumentEdits {
    pub uri: Uri,
    pub edits: Vec<TextEdit>,
}

/// What the edits to one document say: the text of its identifier and the
/// edits in their order.
pub struct DocumentEditsView {
    pub uri: Seq<char>,
    pub edits: Seq<TextEditView>,
}

impl View for DocumentEdits {
    type V = DocumentEditsView;

    open spec fn view(&self) -> DocumentEditsView {
        DocumentEditsView { uri: self.uri@, edits: edits_view(self.edits@) }
    }
}

/// No document has two entries.
pub open spec fn distinct_uris(changes: Seq<DocumentEditsView>) -> bool {
    forall|i: int, j: int|
        0 <= i < j < changes.len() ==> (#[trigger] changes[i]).uri != (#[trigger] changes[j]).uri
}

/// Some entry is for the document.
pub open spec fn has_uri(changes: Seq<DocumentEditsView>, uri: Seq<char>) -> bool {
    exists|k: int| 0 <= k < changes.len() && (#[trigger] changes[k]).uri == uri
}

/// The index of an entry for the document, where there is one.
pub open spec fn uri_index(changes: Seq<DocumentEditsView>, uri: Seq<char>) -> int {
    choose|k: int| 0 <= k < changes.len() && (#[trigger] changes[k]).uri == uri
}

/// The entries after the edits of a document are recorded: they take the
/// place of the edits recorded for it before, or else come last.
pub open spec fn record(
    changes: Seq<DocumentEditsView>,
    uri: Seq<char>,
    edits: Seq<TextEditView>,
) -> Seq<DocumentEditsView> {
    let entry = DocumentEditsView { uri, edits };
    if has_uri(changes, uri) {
        changes.update(uri_index(changes, uri), entry)
    } else {
        changes.push(entry)
    }
}

/// The number of edits in all entries together.
pub open spec fn total_edits(changes: Seq<DocumentEditsView>) -> nat
    decreases changes.len(),
{
    if changes.len() == 0 {
        0
    } else {
        total_edits(changes.drop_last()) + changes.last().edits.len()
    }
}

/// The entries as a mapping from documents to their edits.
pub open spec fn changes_map(changes: Seq<DocumentEditsView>) -> Map<Seq<char>, Seq<TextEditView>> {
    Map::new(
        |uri: Seq<char>| has_uri(changes, uri),
        |uri: Seq<char>| changes[uri_index(changes, uri)].edits,
    )
}

/// After recording, the documents with an entry are the one recorded and
/// those that had an entry before.
pub proof fn lemma_record_has_uri(
    changes: Seq<DocumentEditsView>,
    uri: Seq<char>,
    edits: Seq<TextEditView>,
    other: Seq<char>,
)
    ensures
        has_uri(record(changes, uri, edits), other) <==> (other == uri || has_uri(changes, other)),
{
    let after = record(changes, uri, edits);
    if has_uri(changes, uri) {
        let k = uri_index(changes, uri);
        assert(after[k].uri == uri);
        if has_uri(changes, other) {
            let j = uri_index(changes, other);
            assert(after[j].uri == other);
        }
        if has_uri(after, other) {
            let j = uri_index(after, other);
            assert(changes[j].uri == other || other == uri);
        }
    } else {
        assert(after[changes.len() as int].uri == uri);
        if has_uri(changes, other) {
            let j = uri_index(changes, other);
            assert(after[j].uri == other);
        }
        if has_uri(after, other) {
            let j = uri_index(after, other);
            if j < changes.len() {
                assert(changes[j].uri == other);
            }
        }
    }
}

/// Recording keeps the entries distinct.
pub proof fn lemma_record_distinct(
    changes: Seq<DocumentEditsView>,
    uri: Seq<char>,
    edits: Seq<TextEditView>,
)
    requires
        distinct_uris(changes),
    ensures
        distinct_uris(record(changes, uri, edits)),
{
}

/// Recording the edits of a document maps the document to them and leaves
/// the other documents as they were.
pub proof fn lemma_record_map(
    changes: Seq<DocumentEditsView>,
    uri: Seq<char>,
    edits: Seq<TextEditView>,
)
    requires
        distinct_uris(changes),
    ensures
        changes_map(record(changes, uri, edits)) == changes_map(changes).insert(uri, edits),
{
    let after = record(changes, uri, edits);
    lemma_record_distinct(changes, uri, edits);
    assert forall|other: Seq<char>| has_uri(after, other) <==> (other == uri || has_uri(changes, other)) by {
        lemma_record_has_uri(changes, uri, edits, other);
    }
    assert forall|other: Seq<char>| has_uri(after, other) implies #[trigger] changes_map(after)[other]
        == changes_map(changes).insert(uri, edits)[other] by {
        let j = uri_index(after, other);
        if other == uri {
            assert(after[j].edits == edits);
        } else {
            let i = uri_index(changes, other);
            assert(after[i].uri == other);
            assert(i == j);
        }
    }
    assert(changes_map(after) =~= changes_map(changes).insert(uri, edits));
}

/// Recording the edits of a document that had no entry adds their number to
/// the total.
pub proof fn lemma_record_fresh_total(
    changes: Seq<DocumentEditsView>,
    uri: Seq<char>,
    edits: Seq<TextEditView>,
)
    requires
        !has_uri(changes, uri),
    ensures
        record(changes, uri, edits) == changes.push(DocumentEditsView { uri, edits }),
        total_edits(record(changes, uri, edits)) == total_edits(changes) + edits.len(),
{
    let after = changes.push(DocumentEditsView { uri, edits });
    assert(after.drop_last() =~= changes);
}

/// Edits to several documents, at most one entry for each.
///
/// The entries stand in the order in which their documents were first
/// recorded.
#[derive(Debug, PartialEq, Eq)]
pub struct WorkspaceEdit {
    changes: Vec<DocumentEdits>,
}

impl View for WorkspaceEdit {
    type V = Seq<DocumentEditsView>;

    closed spec fn view(&self) -> Seq<DocumentEditsView> {
        self.changes@.map_values(|entry: DocumentEdits| entry@)
    }
}

impl WorkspaceEdit {
    #[verifier::type_invariant]
    spec fn well_formed(self) -> bool {
        distinct_uris(self@)
    }

    /// An edit that touches no document.
    pub fn new() -> (edit: WorkspaceEdit)
        ensures
            edit@ == Seq::<DocumentEditsView>::empty(),
    {
        WorkspaceEdit { changes: Vec::new() }
    }

    /// The position of the entry for a document.
    fn position_of(&self, uri: &Uri) -> (found: Option<usize>)
        ensures
            found is Some <==> has_uri(self@, uri@),
            found matches Some(k) ==> k < self@.len() && k == uri_index(self@, uri@),
    {
        proof {
            use_type_invariant(self);
        }
        let mut k: usize = 0;
        while k < self.changes.len()
            invariant
                k <= self.changes@.len(),
                self@.len() == self.changes@.len(),
                distinct_uris(self@),
                forall|j: int| 0 <= j < k ==> (#[trigger] self@[j]).uri != uri@,
            decreases self.changes@.len() - k,
        {
            if self.changes[k].uri.same_as(uri) {
                assert(self@[k as int].uri == uri@);
                return Some(k);
            }
            k += 1;
        }
        None
    }

    /// Records the edits of a document in place of those recorded for it
    /// before, if any.
    pub fn insert(&mut self, uri: Uri, edits: Vec<TextEdit>)
        ensures
            final(self)@ == record(old(self)@, uri@, edits_view(edits@)),
            distinct_uris(final(self)@),
    {
        proof {
            use_type_invariant(&*self);
            lemma_record_distinct(self@, uri@, edits_view(edits@));
        }
        let found = self.position_of(&uri);
        let mut changes = Vec::new();
        std::mem::swap(&mut changes, &mut self.changes);
        let ghost before = changes@.map_values(|entry: DocumentEdits| entry@);
        let entry = DocumentEdits { uri, edits };
        match found {
            Some(k) => {
                changes.set(k, entry);
                assert(changes@.map_values(|entry: DocumentEdits| entry@) =~= before.update(
                    k as int,
                    entry@,
                ));
            },
            None => {
                changes.push(entry);
                assert(changes@.map_values(|entry: DocumentEdits| entry@) =~= before.push(entry@));
            },
        }
        self.changes = changes;
    }

    /// The edits recorded for a document.
    pub fn get(&self, uri: &Uri) -> (edits: Option<&Vec<TextEdit>>)
        ensures
            edits is Some <==> has_uri(self@, uri@),
            edits matches Some(found) ==> edits_view(found@) == changes_map(self@)[uri@],
    {
        match self.position_of(uri) {
            Some(k) => Some(&self.changes[k].edits),
            None => None,
        }
    }

    /// The entries, one for each document, in the order of recording.
    pub fn changes(&self) -> (changes: &Vec<DocumentEdits>)
        ensures
            changes@.map_values(|entry: DocumentEdits| entry@) == self@,
            distinct_uris(self@),
    {
        proof {
            use_type_invariant(self);
        }
        &self.changes
    }

    /// The number of documents with an entry.
    pub fn len(&self) -> (count: usize)
        ensures
            count == self@.len(),
    {
        self.changes.len()
    }
}

/// A cursor in the document that a request is about.
#[derive(Clone, Copy, Debug, PartialEq, Eq)]
pub struct TextDocumentPositionParams {
    pub position: Position,
}

/// A request for completions at a cursor.
#[derive(Clone, Copy, Debug, PartialEq, Eq)]
pub struct CompletionParams {
    pub position: Position,
}

/// A request to rename the symbol at a cursor.
#[derive(Clone, Debug, PartialEq, Eq)]
pub struct RenameParams {
    pub position: Position,
    pub new_name: String,
}

/// One entry of a completion list.
#[derive(Clone, Debug, PartialEq, Eq)]
pub struct CompletionItem {
    pub label: String,
    pub documentation: String,
}

} // verus!
