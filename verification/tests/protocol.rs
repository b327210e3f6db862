use tex_features::protocol::{DocumentEdits, Position, Range, TextEdit, Uri, WorkspaceEdit};
use tex_features::syntax::Span;

fn uri(name: &str) -> Uri {
    Uri::new(name.to_owned())
}

fn edit(line: u32, start: u32, end: u32, text: &str) -> TextEdit {
    TextEdit::new(Range::new_simple(line, start, line, end), text.to_owned())
}

#[test]
fn positions_are_ordered_by_line_then_column() {
    let p = Position::new(2, 5);
    assert!(p.at_or_before(p));
    assert!(p.at_or_before(Position::new(2, 6)));
    assert!(!p.at_or_before(Position::new(2, 4)));
    assert!(p.at_or_before(Position::new(3, 0)));
    assert!(!p.at_or_before(Position::new(1, 9)));
    assert!(Position::new(0, 0).at_or_before(Position::new(u32::MAX, u32::MAX)));
    assert!(!Position::new(u32::MAX, u32::MAX).at_or_before(Position::new(u32::MAX, 0)));
}

#[test]
fn range_contains_both_of_its_boundaries() {
    let range = Range::new_simple(0, 7, 0, 10);
    assert!(!range.contains(Position::new(0, 6)));
    assert!(range.contains(Position::new(0, 7)));
    assert!(range.contains(Position::new(0, 8)));
    assert!(range.contains(Position::new(0, 10)));
    assert!(!range.contains(Position::new(0, 11)));
    assert!(!range.contains(Position::new(1, 8)));
}

#[test]
fn range_over_several_lines() {
    let range = Range::new(Position::new(1, 4), Position::new(3, 2));
    assert!(!range.contains(Position::new(1, 3)));
    assert!(range.contains(Position::new(1, 4)));
    assert!(range.contains(Position::new(1, 1000)));
    assert!(range.contains(Position::new(2, 0)));
    assert!(range.contains(Position::new(3, 2)));
    assert!(!range.contains(Position::new(3, 3)));
    assert!(!range.contains(Position::new(0, 5)));
    assert!(!range.contains(Position::new(4, 0)));
}

#[test]
fn empty_and_inverted_ranges() {
    let point = Range::new_simple(2, 2, 2, 2);
    assert!(point.contains(Position::new(2, 2)));
    assert!(!point.contains(Position::new(2, 1)));
    assert!(!point.contains(Position::new(2, 3)));
    let inverted = Range::new_simple(0, 5, 0, 2);
    for character in 0..8 {
        assert!(!inverted.contains(Position::new(0, character)));
    }
}

#[test]
fn constructors_keep_their_arguments() {
    let range = Range::new_simple(1, 2, 3, 4);
    assert_eq!(range.start, Position { line: 1, character: 2 });
    assert_eq!(range.end, Position { line: 3, character: 4 });
    assert_eq!(Range::new(range.start, range.end), range);
    let span = Span::new(range, "foo".to_owned());
    assert_eq!(span.range(), range);
    assert_eq!(span.text, "foo");
    let edit = TextEdit::new(range, "bar".to_owned());
    assert_eq!(edit.range, range);
    assert_eq!(edit.new_text, "bar");
}

#[test]
fn uris_are_compared_by_their_text() {
    let a = uri("file:///a.tex");
    assert!(a.same_as(&uri("file:///a.tex")));
    assert!(!a.same_as(&uri("file:///A.tex")));
    assert_eq!(a.as_str(), "file:///a.tex");
    assert_eq!(a.duplicate(), a);
}

#[test]
fn workspace_edit_starts_empty() {
    let edit = WorkspaceEdit::new();
    assert_eq!(edit.len(), 0);
    assert!(edit.changes().is_empty());
    assert_eq!(edit.get(&uri("a.tex")), None);
}

#[test]
fn workspace_edit_keeps_one_entry_for_each_document() {
    let mut changes = WorkspaceEdit::new();
    changes.insert(uri("a.tex"), vec![edit(0, 1, 2, "x")]);
    changes.insert(uri("b.tex"), Vec::new());
    assert_eq!(changes.len(), 2);
    assert_eq!(changes.get(&uri("a.tex")), Some(&vec![edit(0, 1, 2, "x")]));
    assert_eq!(changes.get(&uri("b.tex")), Some(&Vec::new()));
    assert_eq!(changes.get(&uri("c.tex")), None);

    changes.insert(uri("a.tex"), vec![edit(3, 1, 2, "y"), edit(4, 1, 2, "y")]);
    assert_eq!(changes.len(), 2);
    assert_eq!(
        changes.get(&uri("a.tex")),
        Some(&vec![edit(3, 1, 2, "y"), edit(4, 1, 2, "y")])
    );
    assert_eq!(changes.get(&uri("b.tex")), Some(&Vec::new()));
    assert_eq!(
        changes.changes(),
        &vec![
            DocumentEdits { uri: uri("a.tex"), edits: vec![edit(3, 1, 2, "y"), edit(4, 1, 2, "y")] },
            DocumentEdits { uri: uri("b.tex"), edits: Vec::new() },
        ]
    );
}
