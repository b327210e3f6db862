//! Renaming a label: the name under the cursor, and the edits that replace
//! every occurrence of that name in the documents of the request.

use crate::feature::{FeatureProvider, FeatureRequest};
use crate::protocol::{
    changes_map, distinct_uris, edits_view, has_uri, lemma_record_distinct,
    lemma_record_fresh_total, lemma_record_has_uri, lemma_record_map, record, total_edits,
    DocumentEditsView, Position, Range, RenameParams, TextDocumentPositionParams, TextEdit,
    TextEditView, WorkspaceEdit,
};
use crate::syntax::{
    first_containing, lemma_first_containing, lemma_names_of_prefix, lemma_some_containing,
    names_of, none_contains, LatexSymbolTable, Span,
};
use crate::workspace::{Document, DocumentContent};
use vstd::prelude::*;

verus! {

/// The label name under the cursor: the first name occurrence of a LaTeX
/// document that contains the position. Other documents have none.
pub open spec fn label_at(content: DocumentContent, position: Position) -> Option<Span> {
    match content {
        DocumentContent::Latex(table) => match first_containing(table.names(), position) {
            Some(i) => Some(table.names()[i]),
            None => None,
        },
        DocumentContent::Bibtex(_) => None,
    }
}

/// The span carries exactly this name.
pub open spec fn has_name(name: Seq<char>) -> spec_fn(Span) -> bool {
    |span: Span| span.text@ == name
}

/// The edit that puts the new name in the place of a span.
pub open spec fn renamed_to(new_name: Seq<char>) -> spec_fn(Span) -> TextEditView {
    |span: Span| TextEditView { range: span.range, new_text: new_name }
}

/// One edit for each occurrence of the name, in source order.
pub open spec fn label_edits(names: Seq<Span>, name: Seq<char>, new_name: Seq<char>) -> Seq<TextEditView> {
    names.filter(has_name(name)).map_values(renamed_to(new_name))
}

/// The entries after a document is scanned: a LaTeX document gets an entry
/// with the edits to its occurrences of the name, even if there are none;
/// any other document gets no entry.
pub open spec fn document_changes(
    changes: Seq<DocumentEditsView>,
    document: Document,
    name: Seq<char>,
    new_name: Seq<char>,
) -> Seq<DocumentEditsView> {
    match document.content {
        DocumentContent::Latex(table) => record(
            changes,
            document.uri@,
            label_edits(table.names(), name, new_name),
        ),
        DocumentContent::Bibtex(_) => changes,
    }
}

/// The entries after the first `count` documents are scanned in order.
pub open spec fn rename_changes(
    documents: Seq<Document>,
    count: int,
    name: Seq<char>,
    new_name: Seq<char>,
) -> Seq<DocumentEditsView>
    decreases count,
{
    if count <= 0 {
        Seq::empty()
    } else {
        document_changes(
            rename_changes(documents, count - 1, name, new_name),
            documents[count - 1],
            name,
            new_name,
        )
    }
}

/// The number of occurrences of the name in the first `count` documents.
pub open spec fn occurrences(documents: Seq<Document>, count: int, name: Seq<char>) -> nat
    decreases count,
{
    if count <= 0 {
        0
    } else {
        let earlier = occurrences(documents, count - 1, name);
        match documents[count - 1].content {
            DocumentContent::Latex(table) => earlier + table.names().filter(has_name(name)).len(),
            DocumentContent::Bibtex(_) => earlier,
        }
    }
}

/// No two documents have the same identifier.
pub open spec fn distinct_documents(documents: Seq<Document>) -> bool {
    forall|i: int, j: int|
        0 <= i < j < documents.len() ==> (#[trigger] documents[i]).uri@ != (#[trigger] documents[j]).uri@
}

/// The span of the label name under the cursor.
pub fn find_label(content: &DocumentContent, position: Position) -> (found: Option<&Span>)
    ensures
        found is Some <==> label_at(*content, position) is Some,
        found matches Some(span) ==> label_at(*content, position) == Some(*span),
{
    match content {
        DocumentContent::Latex(table) => {
            let mut i: usize = 0;
            while i < table.labels.len()
                invariant
                    i <= table.labels@.len(),
                    *content == DocumentContent::Latex(*table),
                    none_contains(names_of(table.labels@, i as int), position),
                decreases table.labels@.len() - i,
            {
                let names = table.labels[i].names();
                let ghost before = names_of(table.labels@, i as int);
                let mut j: usize = 0;
                while j < names.len()
                    invariant
                        j <= names@.len(),
                        i < table.labels@.len(),
                        *content == DocumentContent::Latex(*table),
                        names@ == table.labels@[i as int].names@,
                        before == names_of(table.labels@, i as int),
                        none_contains(before, position),
                        none_contains(names@.take(j as int), position),
                    decreases names@.len() - j,
                {
                    if names[j].range().contains(position) {
                        proof {
                            let all = table.names();
                            let here = before.len() + j;
                            lemma_names_of_prefix(table.labels@, i + 1, table.labels@.len() as int);
                            let upto = names_of(table.labels@, i + 1);
                            assert(upto == before + names@);
                            assert(all.take(upto.len() as int) == upto);
                            assert forall|k: int| 0 <= k <= here implies #[trigger] all[k] == upto[k] by {
                                assert(all.take(upto.len() as int)[k] == all[k]);
                            }
                            assert(all[here] == names@[j as int]);
                            assert forall|k: int| 0 <= k < here implies !(#[trigger] all[k]).range.contains(
                                position,
                            ) by {
                                if k < before.len() {
                                    assert(all[k] == before[k]);
                                } else {
                                    assert(all[k] == names@.take(j as int)[k - before.len()]);
                                }
                            }
                            lemma_first_containing(all, position, here);
                        }
                        return Some(&names[j]);
                    }
                    proof {
                        assert(names@.take(j + 1) =~= names@.take(j as int).push(names@[j as int]));
                    }
                    j += 1;
                }
                proof {
                    assert(names@.take(j as int) =~= names@);
                }
                i += 1;
            }
            None
        },
        DocumentContent::Bibtex(_) => None,
    }
}

/// Where the cursor of a rename may stand: inside a label name.
#[derive(Debug, PartialEq, Eq, Clone, Copy, Default)]
pub struct LatexLabelPrepareRenameProvider;

impl FeatureProvider for LatexLabelPrepareRenameProvider {
    type Params = TextDocumentPositionParams;

    type Output = Option<Range>;

    /// The range of the label name under the cursor, if there is one.
    open spec fn yields(
        &self,
        request: &FeatureRequest<TextDocumentPositionParams>,
        output: Option<Range>,
    ) -> bool {
        output == match label_at(request.current.content, request.params.position) {
            Some(span) => Some(span.range),
            None => None,
        }
    }

    fn execute(&self, request: &FeatureRequest<TextDocumentPositionParams>) -> (output: Option<Range>) {
        match find_label(&request.current().content, request.params.position) {
            Some(span) => Some(span.range()),
            None => None,
        }
    }
}

/// Scanning one more span adds the edit for it where it carries the name,
/// and nothing where it does not.
proof fn lemma_label_edits_push(names: Seq<Span>, span: Span, name: Seq<char>, new_name: Seq<char>)
    ensures
        label_edits(names.push(span), name, new_name) == if span.text@ == name {
            label_edits(names, name, new_name).push(TextEditView { range: span.range, new_text: new_name })
        } else {
            label_edits(names, name, new_name)
        },
{
    names.lemma_filter_push(span, has_name(name));
    if span.text@ == name {
        names.filter(has_name(name)).lemma_push_map_commute(renamed_to(new_name), span);
    }
}

/// The edits that rename the occurrences of a name in one document.
fn collect_edits(table: &LatexSymbolTable, name: &String, new_name: &String) -> (edits: Vec<TextEdit>)
    ensures
        edits_view(edits@) == label_edits(table.names(), name@, new_name@),
{
    let mut edits: Vec<TextEdit> = Vec::new();
    let mut i: usize = 0;
    proof {
        assert(label_edits(Seq::<Span>::empty(), name@, new_name@) =~= Seq::empty()) by {
            reveal(Seq::filter);
        }
        assert(edits_view(edits@) =~= Seq::empty());
    }
    while i < table.labels.len()
        invariant
            i <= table.labels@.len(),
            edits_view(edits@) == label_edits(names_of(table.labels@, i as int), name@, new_name@),
        decreases table.labels@.len() - i,
    {
        let names = table.labels[i].names();
        let ghost before = names_of(table.labels@, i as int);
        let mut j: usize = 0;
        proof {
            assert(before + names@.take(0) =~= before);
        }
        while j < names.len()
            invariant
                j <= names@.len(),
                i < table.labels@.len(),
                names@ == table.labels@[i as int].names@,
                before == names_of(table.labels@, i as int),
                edits_view(edits@) == label_edits(before + names@.take(j as int), name@, new_name@),
            decreases names@.len() - j,
        {
            let ghost scanned = before + names@.take(j as int);
            proof {
                lemma_label_edits_push(scanned, names@[j as int], name@, new_name@);
                assert(scanned.push(names@[j as int]) =~= before + names@.take(j + 1));
            }
            if names[j].text == *name {
                let edit = TextEdit::new(names[j].range(), new_name.clone());
                let ghost earlier = edits@;
                edits.push(edit);
                proof {
                    earlier.lemma_push_map_commute(|edit: TextEdit| edit@, edit);
                }
            }
            j += 1;
        }
        proof {
            assert(names@.take(j as int) =~= names@);
        }
        i += 1;
    }
    edits
}

/// Scans one document and records its edits.
fn record_document(changes: &mut WorkspaceEdit, document: &Document, name: &String, new_name: &String)
    ensures
        final(changes)@ == document_changes(old(changes)@, *document, name@, new_name@),
{
    match &document.content {
        DocumentContent::Latex(table) => {
            let edits = collect_edits(table, name, new_name);
            changes.insert(document.uri.duplicate(), edits);
        },
        DocumentContent::Bibtex(_) => {},
    }
}

/// Renames the label under the cursor in the current document and in the
/// related ones.
#[derive(Debug, PartialEq, Eq, Clone, Copy, Default)]
pub struct LatexLabelRenameProvider;

impl FeatureProvider for LatexLabelRenameProvider {
    type Params = RenameParams;

    type Output = Option<WorkspaceEdit>;

    /// Nothing where the cursor is in no label name. Otherwise the entries
    /// recorded by scanning the current document and then the related ones
    /// for the name under the cursor.
    open spec fn yields(
        &self,
        request: &FeatureRequest<RenameParams>,
        output: Option<WorkspaceEdit>,
    ) -> bool {
        match label_at(request.current.content, request.params.position) {
            Some(span) => output matches Some(edit) && edit@ == rename_changes(
                request.documents(),
                request.documents().len() as int,
                span.text@,
                request.params.new_name@,
            ),
            None => output is None,
        }
    }

    fn execute(&self, request: &FeatureRequest<RenameParams>) -> (output: Option<WorkspaceEdit>) {
        let name = match find_label(&request.current().content, request.params.position) {
            Some(span) => span,
            None => {
                return None;
            },
        };
        let new_name = &request.params.new_name;
        let ghost documents = request.documents();
        let mut changes = WorkspaceEdit::new();
        record_document(&mut changes, request.current(), &name.text, new_name);
        proof {
            reveal_with_fuel(rename_changes, 2);
        }
        let related = request.related();
        let mut i: usize = 0;
        while i < related.len()
            invariant
                i <= related@.len(),
                related@ == request.related@,
                documents == request.documents(),
                changes@ == rename_changes(documents, i + 1, name.text@, new_name@),
            decreases related@.len() - i,
        {
            assert(documents[i + 1] == *related@[i as int]);
            record_document(&mut changes, &related[i], &name.text, new_name);
            i += 1;
        }
        Some(changes)
    }
}

/// No label name of the document contains the position.
pub open spec fn outside_every_name(content: DocumentContent, position: Position) -> bool {
    match content {
        DocumentContent::Latex(table) => none_contains(table.names(), position),
        DocumentContent::Bibtex(_) => true,
    }
}

/// Where the name occurrences of a document do not overlap, a cursor in one
/// of them is in that one and in no other: preparing a rename there yields
/// the range of that occurrence, whether it sets the label or refers to it.
pub proof fn lemma_prepare_rename_inside(
    request: &FeatureRequest<TextDocumentPositionParams>,
    table: LatexSymbolTable,
    k: int,
    output: Option<Range>,
)
    requires
        request.current.content == DocumentContent::Latex(table),
        table.names_disjoint(),
        0 <= k < table.names().len(),
        table.names()[k].range.contains(request.params.position),
        LatexLabelPrepareRenameProvider.yields(request, output),
    ensures
        output == Some(table.names()[k].range),
{
    let position = request.params.position;
    lemma_some_containing(table.names(), position);
    let first = first_containing(table.names(), position)->Some_0;
    if first < k {
        assert(table.names()[first].range.disjoint_from(table.names()[k].range));
    } else if k < first {
        assert(table.names().take(first)[k] == table.names()[k]);
    }
}

/// A cursor outside every label name cannot be renamed.
pub proof fn lemma_prepare_rename_outside(
    request: &FeatureRequest<TextDocumentPositionParams>,
    output: Option<Range>,
)
    requires
        outside_every_name(request.current.content, request.params.position),
        LatexLabelPrepareRenameProvider.yields(request, output),
    ensures
        output is None,
{
}

/// A rename at a cursor outside every label name yields nothing, so it
/// touches no document.
pub proof fn lemma_rename_outside(
    request: &FeatureRequest<RenameParams>,
    output: Option<WorkspaceEdit>,
)
    requires
        outside_every_name(request.current.content, request.params.position),
        LatexLabelRenameProvider.yields(request, output),
    ensures
        output is None,
{
}

/// In an empty document no cursor can be renamed, wherever it is.
pub proof fn lemma_prepare_rename_in_empty_document(
    request: &FeatureRequest<TextDocumentPositionParams>,
    output: Option<Range>,
)
    requires
        request.current.content.is_empty(),
        LatexLabelPrepareRenameProvider.yields(request, output),
    ensures
        output is None,
{
}

/// A rename in an empty document yields nothing, wherever the cursor is.
pub proof fn lemma_rename_in_empty_document(
    request: &FeatureRequest<RenameParams>,
    output: Option<WorkspaceEdit>,
)
    requires
        request.current.content.is_empty(),
        LatexLabelRenameProvider.yields(request, output),
    ensures
        output is None,
{
}

/// The documents with an entry after a scan are the LaTeX documents that
/// were scanned, and each has one entry.
pub proof fn lemma_rename_changes_documents(
    documents: Seq<Document>,
    count: int,
    name: Seq<char>,
    new_name: Seq<char>,
)
    requires
        0 <= count <= documents.len(),
    ensures
        distinct_uris(rename_changes(documents, count, name, new_name)),
        forall|uri: Seq<char>| #[trigger]
            has_uri(rename_changes(documents, count, name, new_name), uri) <==> exists|i: int|
                0 <= i < count && (#[trigger] documents[i]).content is Latex && documents[i].uri@ == uri,
    decreases count,
{
    if count > 0 {
        lemma_rename_changes_documents(documents, count - 1, name, new_name);
        let earlier = rename_changes(documents, count - 1, name, new_name);
        let after = rename_changes(documents, count, name, new_name);
        let document = documents[count - 1];
        match document.content {
            DocumentContent::Latex(table) => {
                let edits = label_edits(table.names(), name, new_name);
                lemma_record_distinct(earlier, document.uri@, edits);
                assert forall|uri: Seq<char>| #[trigger]
                    has_uri(after, uri) <==> exists|i: int|
                        0 <= i < count && (#[trigger] documents[i]).content is Latex && documents[i].uri@
                            == uri by {
                    lemma_record_has_uri(earlier, document.uri@, edits, uri);
                    if has_uri(earlier, uri) {
                        let i = choose|i: int|
                            0 <= i < count - 1 && (#[trigger] documents[i]).content is Latex
                                && documents[i].uri@ == uri;
                        assert(0 <= i < count && documents[i].content is Latex && documents[i].uri@ == uri);
                    }
                    if uri == document.uri@ {
                        assert(documents[count - 1].content is Latex && documents[count - 1].uri@ == uri);
                    }
                }
            },
            DocumentContent::Bibtex(_) => {
                assert forall|uri: Seq<char>| #[trigger]
                    has_uri(after, uri) <==> exists|i: int|
                        0 <= i < count && (#[trigger] documents[i]).content is Latex && documents[i].uri@
                            == uri by {
                    if has_uri(earlier, uri) {
                        let i = choose|i: int|
                            0 <= i < count - 1 && (#[trigger] documents[i]).content is Latex
                                && documents[i].uri@ == uri;
                        assert(0 <= i < count && documents[i].content is Latex && documents[i].uri@ == uri);
                    }
                }
            },
        }
    }
}

/// A scan maps a LaTeX document to the edits to its own occurrences of the
/// name, which may be none, unless a later LaTeX document of the scan has
/// the same identifier.
pub proof fn lemma_rename_changes_entry(
    documents: Seq<Document>,
    count: int,
    name: Seq<char>,
    new_name: Seq<char>,
    i: int,
)
    requires
        0 <= i < count <= documents.len(),
        documents[i].content is Latex,
        forall|j: int|
            i < j < count && (#[trigger] documents[j]).content is Latex ==> documents[j].uri@
                != documents[i].uri@,
    ensures
        has_uri(rename_changes(documents, count, name, new_name), documents[i].uri@),
        changes_map(rename_changes(documents, count, name, new_name))[documents[i].uri@] == label_edits(
            documents[i].content->Latex_0.names(),
            name,
            new_name,
        ),
    decreases count,
{
    let earlier = rename_changes(documents, count - 1, name, new_name);
    let document = documents[count - 1];
    lemma_rename_changes_documents(documents, count - 1, name, new_name);
    lemma_rename_changes_documents(documents, count, name, new_name);
    if i < count - 1 {
        lemma_rename_changes_entry(documents, count - 1, name, new_name, i);
    }
    match document.content {
        DocumentContent::Latex(table) => {
            lemma_record_map(earlier, document.uri@, label_edits(table.names(), name, new_name));
        },
        DocumentContent::Bibtex(_) => {},
    }
}

/// Over documents with distinct identifiers, a scan yields as many edits as
/// the name has occurrences.
pub proof fn lemma_rename_changes_total(
    documents: Seq<Document>,
    count: int,
    name: Seq<char>,
    new_name: Seq<char>,
)
    requires
        0 <= count <= documents.len(),
        distinct_documents(documents),
    ensures
        total_edits(rename_changes(documents, count, name, new_name)) == occurrences(documents, count, name),
    decreases count,
{
    if count > 0 {
        lemma_rename_changes_total(documents, count - 1, name, new_name);
        lemma_rename_changes_documents(documents, count - 1, name, new_name);
        let earlier = rename_changes(documents, count - 1, name, new_name);
        let document = documents[count - 1];
        match document.content {
            DocumentContent::Latex(table) => {
                if has_uri(earlier, document.uri@) {
                    let i = choose|i: int|
                        0 <= i < count - 1 && (#[trigger] documents[i]).content is Latex && documents[i].uri@
                            == document.uri@;
                    assert(documents[i].uri@ != documents[count - 1].uri@);
                }
                lemma_record_fresh_total(earlier, document.uri@, label_edits(table.names(), name, new_name));
            },
            DocumentContent::Bibtex(_) => {},
        }
    }
}

/// A rename has an entry for every LaTeX document of the request and for no
/// other document. The entry of a LaTeX document holds the edits to its own
/// occurrences of the name under the cursor, which may be none, unless a
/// later LaTeX document of the request has the same identifier.
pub proof fn lemma_rename_covers_every_document(
    request: &FeatureRequest<RenameParams>,
    span: Span,
    edit: WorkspaceEdit,
)
    requires
        label_at(request.current.content, request.params.position) == Some(span),
        LatexLabelRenameProvider.yields(request, Some(edit)),
    ensures
        distinct_uris(edit@),
        forall|uri: Seq<char>| #[trigger]
            has_uri(edit@, uri) <==> exists|i: int|
                0 <= i < request.documents().len() && (#[trigger] request.documents()[i]).content is Latex
                    && request.documents()[i].uri@ == uri,
        forall|i: int|
            0 <= i < request.documents().len() && (#[trigger] request.documents()[i]).content is Latex && (
            forall|j: int|
                i < j < request.documents().len() && (#[trigger] request.documents()[j]).content is Latex
                    ==> request.documents()[j].uri@ != request.documents()[i].uri@) ==> changes_map(
                edit@,
            )[request.documents()[i].uri@] == label_edits(
                request.documents()[i].content->Latex_0.names(),
                span.text@,
                request.params.new_name@,
            ),
{
    let documents = request.documents();
    let count = documents.len() as int;
    let name = span.text@;
    let new_name = request.params.new_name@;
    lemma_rename_changes_documents(documents, count, name, new_name);
    assert forall|i: int|
        0 <= i < count && (#[trigger] documents[i]).content is Latex && (forall|j: int|
            i < j < count && (#[trigger] documents[j]).content is Latex ==> documents[j].uri@
                != documents[i].uri@) implies changes_map(edit@)[documents[i].uri@] == label_edits(
        documents[i].content->Latex_0.names(),
        name,
        new_name,
    ) by {
        lemma_rename_changes_entry(documents, count, name, new_name, i);
    }
}

/// Renaming a label touches each of its occurrences once: where the
/// documents of the request have distinct identifiers, the edits are as many
/// as the occurrences of the name under the cursor in all of them.
pub proof fn lemma_rename_touches_every_occurrence(
    request: &FeatureRequest<RenameParams>,
    span: Span,
    edit: WorkspaceEdit,
)
    requires
        distinct_documents(request.documents()),
        label_at(request.current.content, request.params.position) == Some(span),
        LatexLabelRenameProvider.yields(request, Some(edit)),
    ensures
        total_edits(edit@) == occurrences(
            request.documents(),
            request.documents().len() as int,
            span.text@,
        ),
{
    lemma_rename_changes_total(
        request.documents(),
        request.documents().len() as int,
        span.text@,
        request.params.new_name@,
    );
}

} // verus!
