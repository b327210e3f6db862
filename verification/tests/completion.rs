use std::sync::Arc;
use tex_features::completion::bibtex::entry_type::BibtexEntryTypeCompletionProvider;
use tex_features::completion::factory::create_entry_type;
use tex_features::data::language::{entry_types, BibtexEntryTypeDoc};
use tex_features::feature::{FeatureProvider, FeatureRequest};
use tex_features::protocol::{CompletionItem, CompletionParams, Position, Range, Uri};
use tex_features::syntax::{
    BibtexComment, BibtexDeclaration, BibtexEntry, BibtexPreamble, BibtexString, BibtexSyntaxTree,
    LatexSymbolTable, Span,
};
use tex_features::workspace::{Document, DocumentContent};

fn span(start_line: u32, start: u32, end_line: u32, end: u32, text: &str) -> Span {
    Span::new(Range::new_simple(start_line, start, end_line, end), text.to_owned())
}

fn bibtex(name: &str, text: &str, children: Vec<BibtexDeclaration>) -> Arc<Document> {
    Arc::new(Document::new(
        Uri::new(name.to_owned()),
        text.to_owned(),
        DocumentContent::Bibtex(BibtexSyntaxTree { children }),
    ))
}

fn latex(name: &str, text: &str) -> Arc<Document> {
    Arc::new(Document::new(
        Uri::new(name.to_owned()),
        text.to_owned(),
        DocumentContent::Latex(LatexSymbolTable { labels: Vec::new() }),
    ))
}

fn complete(document: Arc<Document>, position: Position) -> Vec<Arc<CompletionItem>> {
    let request = FeatureRequest::new(CompletionParams { position }, document, Vec::new());
    BibtexEntryTypeCompletionProvider::new().execute(&request)
}

fn entry(range: Range, ty: Span) -> BibtexDeclaration {
    BibtexDeclaration::Entry(BibtexEntry { range, ty })
}

#[test]
fn test_after_at_sign() {
    let document = bibtex(
        "foo.bib",
        "@",
        vec![entry(Range::new_simple(0, 0, 0, 1), span(0, 0, 0, 1, "@"))],
    );
    let items = complete(document, Position::new(0, 1));
    assert!(!items.is_empty());
}

#[test]
fn test_inside_entry() {
    let document = bibtex(
        "foo.bib",
        "@article{foo,}",
        vec![entry(Range::new_simple(0, 0, 0, 14), span(0, 0, 0, 8, "@article"))],
    );
    let items = complete(document, Position::new(0, 11));
    assert!(items.is_empty());
}

#[test]
fn test_inside_comments() {
    let document = bibtex(
        "foo.bib",
        "foo",
        vec![BibtexDeclaration::Comment(BibtexComment { token: span(0, 0, 0, 3, "foo") })],
    );
    let items = complete(document, Position::new(0, 2));
    assert!(items.is_empty());
}

#[test]
fn test_latex() {
    let document = latex("foo.tex", "@");
    let items = complete(document, Position::new(0, 1));
    assert!(items.is_empty());
}

#[test]
fn catalog_lists_every_entry_type_in_table_order() {
    let document = bibtex(
        "foo.bib",
        "@art",
        vec![entry(Range::new_simple(0, 0, 0, 4), span(0, 0, 0, 4, "@art"))],
    );
    let items = complete(document, Position::new(0, 2));
    let labels: Vec<&str> = items.iter().map(|item| item.label.as_str()).collect();
    assert_eq!(
        labels,
        vec![
            "article",
            "book",
            "booklet",
            "conference",
            "inbook",
            "incollection",
            "inproceedings",
            "manual",
            "mastersthesis",
            "misc",
            "phdthesis",
            "proceedings",
            "techreport",
            "unpublished",
        ]
    );
    let table = entry_types();
    assert_eq!(items.len(), table.len());
    for (item, ty) in items.iter().zip(table.iter()) {
        assert_eq!(item.label, ty.name);
        assert_eq!(item.documentation, ty.documentation);
    }
}

#[test]
fn catalog_does_not_depend_on_the_text_typed_so_far() {
    let short = bibtex(
        "a.bib",
        "@",
        vec![entry(Range::new_simple(0, 0, 0, 1), span(0, 0, 0, 1, "@"))],
    );
    let long = bibtex(
        "b.bib",
        "@book{x,}",
        vec![entry(Range::new_simple(0, 0, 0, 9), span(0, 0, 0, 5, "@book"))],
    );
    let first = complete(short, Position::new(0, 1));
    let second = complete(long, Position::new(0, 3));
    assert_eq!(first, second);
}

#[test]
fn answers_share_the_items_of_the_provider() {
    let provider = BibtexEntryTypeCompletionProvider::new();
    let document = bibtex(
        "foo.bib",
        "@",
        vec![entry(Range::new_simple(0, 0, 0, 1), span(0, 0, 0, 1, "@"))],
    );
    let request = FeatureRequest::new(
        CompletionParams { position: Position::new(0, 0) },
        document,
        Vec::new(),
    );
    let first = provider.execute(&request);
    let second = provider.execute(&request);
    assert_eq!(first.len(), 14);
    assert_eq!(first.len(), second.len());
    for (a, b) in first.iter().zip(second.iter()) {
        assert!(Arc::ptr_eq(a, b));
    }
    assert_eq!(first[0].label, "article");
    assert_eq!(first[13].label, "unpublished");
}

#[test]
fn type_field_of_preamble_and_string() {
    let children = vec![
        BibtexDeclaration::Preamble(BibtexPreamble {
            range: Range::new_simple(0, 0, 0, 15),
            ty: span(0, 0, 0, 9, "@preamble"),
        }),
        BibtexDeclaration::String(BibtexString {
            range: Range::new_simple(1, 0, 1, 20),
            ty: span(1, 0, 1, 7, "@string"),
        }),
    ];
    let document = bibtex("foo.bib", "@preamble{\"x\"}\n@string{a = \"b\"}", children);
    assert_eq!(complete(document.clone(), Position::new(0, 4)).len(), 14);
    assert_eq!(complete(document.clone(), Position::new(1, 7)).len(), 14);
    assert!(complete(document.clone(), Position::new(0, 10)).is_empty());
    assert!(complete(document.clone(), Position::new(1, 8)).is_empty());
    assert!(complete(document, Position::new(2, 0)).is_empty());
}

#[test]
fn type_field_boundaries_are_inside() {
    let document = bibtex(
        "foo.bib",
        "  @misc{a,}",
        vec![entry(Range::new_simple(0, 2, 0, 11), span(0, 2, 0, 7, "@misc"))],
    );
    assert!(complete(document.clone(), Position::new(0, 1)).is_empty());
    assert!(!complete(document.clone(), Position::new(0, 2)).is_empty());
    assert!(!complete(document.clone(), Position::new(0, 7)).is_empty());
    assert!(complete(document, Position::new(0, 8)).is_empty());
}

#[test]
fn later_declaration_is_found_behind_comments() {
    let children = vec![
        BibtexDeclaration::Comment(BibtexComment { token: span(0, 0, 0, 7, "comment") }),
        entry(Range::new_simple(1, 0, 1, 12), span(1, 0, 1, 5, "@book")),
    ];
    let tree = BibtexSyntaxTree { children };
    assert_eq!(tree.find_type_field(Position::new(1, 3)), Some(1));
    assert_eq!(tree.find_type_field(Position::new(0, 3)), None);
    assert_eq!(tree.children[0].type_range(), None);
    assert_eq!(tree.children[1].type_range(), Some(Range::new_simple(1, 0, 1, 5)));
}

#[test]
fn empty_bibtex_document_has_no_completions() {
    let document = bibtex("foo.bib", "", Vec::new());
    assert!(complete(document, Position::new(0, 0)).is_empty());
}

#[test]
fn entry_type_item_takes_name_and_documentation() {
    let ty = BibtexEntryTypeDoc {
        name: "online".to_owned(),
        documentation: "A page on the web.".to_owned(),
    };
    let item = create_entry_type(&ty);
    assert_eq!(
        item,
        CompletionItem { label: "online".to_owned(), documentation: "A page on the web.".to_owned() }
    );
}
