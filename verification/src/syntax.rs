//! The parts of a parsed document that the providers read.
//!
//! A parser fills these structures; nothing here inspects source text.

use crate::protocol::{Position, Range};
use vstd::prelude::*;

verus! {

/// A piece of source text together with the place where it stands.
#[derive(Clone, Debug, PartialEq, Eq)]
pub struct Span {
    pub range: Range,
    pub text: String,
}

impl Span {
    pub fn new(range: Range, text: String) -> (span: Span)
        ensures
            span.range == range,
            span.text@ == text@,
    {
        Span { range, text }
    }

    pub fn range(&self) -> (range: Range)
        ensures
            range == self.range,
    {
        self.range
    }
}

/// `@preamble`, with the span of the `@preamble` word itself.
#[derive(Clone, Debug, PartialEq, Eq)]
pub struct BibtexPreamble {
    pub range: Range,
    pub ty: Span,
}

/// `@string`, with the span of the `@string` word itself.
#[derive(Clone, Debug, PartialEq, Eq)]
pub struct BibtexString {
    pub range: Range,
    pub ty: Span,
}

/// An entry such as `@article{...}`, with the span of its `@article` word.
#[derive(Clone, Debug, PartialEq, Eq)]
pub struct BibtexEntry {
    pub range: Range,
    pub ty: Span,
}

/// Text outside every other declaration.
#[derive(Clone, Debug, PartialEq, Eq)]
pub struct BibtexComment {
    pub token: Span,
}

/// A top-level construct of a BibTeX document.
#[derive(Clone, Debug, PartialEq, Eq)]
pub enum BibtexDeclaration {
    Comment(BibtexComment),
    Preamble(BibtexPreamble),
    String(BibtexString),
    Entry(BibtexEntry),
}

impl BibtexDeclaration {
    /// The range of the word that names the kind of the declaration; a
    /// comment has none.
    pub open spec fn spec_type_range(&self) -> Option<Range> {
        match self {
            BibtexDeclaration::Comment(_) => None,
            BibtexDeclaration::Preamble(preamble) => Some(preamble.ty.range),
            BibtexDeclaration::String(string) => Some(string.ty.range),
            BibtexDeclaration::Entry(entry) => Some(entry.ty.range),
        }
    }

    #[verifier::when_used_as_spec(spec_type_range)]
    pub fn type_range(&self) -> (range: Option<Range>)
        ensures
            range == self.spec_type_range(),
    {
        match self {
            BibtexDeclaration::Comment(_) => None,
            BibtexDeclaration::Preamble(preamble) => Some(preamble.ty.range()),
            BibtexDeclaration::String(string) => Some(string.ty.range()),
            BibtexDeclaration::Entry(entry) => Some(entry.ty.range()),
        }
    }

    /// The declaration has a type field and the position lies in it.
    pub open spec fn type_field_contains(&self, position: Position) -> bool {
        match self.spec_type_range() {
            Some(range) => range.contains(position),
            None => false,
        }
    }
}

/// The declarations of a BibTeX document, in source order.
#[derive(Clone, Debug, PartialEq, Eq)]
pub struct BibtexSyntaxTree {
    pub children: Vec<BibtexDeclaration>,
}

impl BibtexSyntaxTree {
    /// Some declaration has a type field that contains the position.
    pub open spec fn in_type_field(&self, position: Position) -> bool {
        exists|i: int|
            0 <= i < self.children@.len() && (#[trigger] self.children@[i]).type_field_contains(
                position,
            )
    }

    /// No position lies in the type fields of two declarations.
    pub open spec fn type_fields_disjoint(&self) -> bool {
        forall|i: int, j: int, position: Position|
            0 <= i < j < self.children@.len() ==> !(#[trigger] self.children@[i].type_field_contains(position)
                && #[trigger] self.children@[j].type_field_contains(position))
    }

    /// Where type fields do not overlap, the declaration whose type field
    /// contains a position is the only one, so the first such declaration is
    /// that one.
    pub proof fn lemma_type_field_is_only(self, position: Position, i: int)
        requires
            self.type_fields_disjoint(),
            0 <= i < self.children@.len(),
            self.children@[i].type_field_contains(position),
        ensures
            forall|j: int|
                0 <= j < self.children@.len() && j != i ==> !(#[trigger] self.children@[j].type_field_contains(
                    position,
                )),
    {
    }

    /// The index of the first declaration whose type field contains the
    /// position, if there is one.
    pub fn find_type_field(&self, position: Position) -> (found: Option<usize>)
        ensures
            found is Some <==> self.in_type_field(position),
            found matches Some(i) ==> {
                &&& i < self.children@.len()
                &&& self.children@[i as int].type_field_contains(position)
                &&& forall|j: int| 0 <= j < i ==> !(#[trigger] self.children@[j]).type_field_contains(position)
            },
    {
        let mut i: usize = 0;
        while i < self.children.len()
            invariant
                i <= self.children@.len(),
                forall|j: int| 0 <= j < i ==> !(#[trigger] self.children@[j]).type_field_contains(position),
            decreases self.children@.len() - i,
        {
            match self.children[i].type_range() {
                Some(range) => {
                    if range.contains(position) {
                        return Some(i);
                    }
                },
                None => {},
            }
            i += 1;
        }
        None
    }
}

/// Whether a label command sets a label or refers to one.
#[derive(Clone, Copy, Debug, PartialEq, Eq, Structural)]
pub enum LatexLabelKind {
    Definition,
    Reference,
}

/// A command that sets labels or refers to them, with the names in its
/// argument in source order.
#[derive(Clone, Debug, PartialEq, Eq)]
pub struct LatexLabel {
    pub kind: LatexLabelKind,
    pub names: Vec<Span>,
}

impl LatexLabel {
    pub fn names(&self) -> (names: &Vec<Span>)
        ensures
            names@ == self.names@,
    {
        &self.names
    }
}

/// The names of the first `count` label commands, one after the other.
pub open spec fn names_of(labels: Seq<LatexLabel>, count: int) -> Seq<Span>
    decreases count,
{
    if count <= 0 {
        Seq::empty()
    } else {
        names_of(labels, count - 1) + labels[count - 1].names@
    }
}

/// No span contains the position.
pub open spec fn none_contains(spans: Seq<Span>, position: Position) -> bool {
    forall|j: int| 0 <= j < spans.len() ==> !(#[trigger] spans[j]).range.contains(position)
}

/// The span at the index contains the position and no span before it does.
pub open spec fn is_first_containing(spans: Seq<Span>, position: Position, i: int) -> bool {
    &&& 0 <= i < spans.len()
    &&& spans[i].range.contains(position)
    &&& none_contains(spans.take(i), position)
}

/// The index of the first span that contains the position, if there is one.
pub open spec fn first_containing(spans: Seq<Span>, position: Position) -> Option<int> {
    if none_contains(spans, position) {
        None
    } else {
        Some(choose|i: int| is_first_containing(spans, position, i))
    }
}

/// The names of fewer label commands are the beginning of the names of more.
pub proof fn lemma_names_of_prefix(labels: Seq<LatexLabel>, fewer: int, more: int)
    requires
        0 <= fewer <= more,
    ensures
        names_of(labels, fewer).len() <= names_of(labels, more).len(),
        names_of(labels, more).take(names_of(labels, fewer).len() as int) == names_of(labels, fewer),
    decreases more,
{
    let length = names_of(labels, fewer).len() as int;
    if fewer < more {
        lemma_names_of_prefix(labels, fewer, more - 1);
        let shorter = names_of(labels, more - 1);
        assert(names_of(labels, more).take(length) =~= shorter.take(length));
    } else {
        assert(names_of(labels, more).take(length) =~= names_of(labels, fewer));
    }
}

/// A span that contains the position, with none before it that does, is the
/// first that contains it.
pub proof fn lemma_first_containing(spans: Seq<Span>, position: Position, i: int)
    requires
        0 <= i < spans.len(),
        spans[i].range.contains(position),
        forall|j: int| 0 <= j < i ==> !(#[trigger] spans[j]).range.contains(position),
    ensures
        is_first_containing(spans, position, i),
        first_containing(spans, position) == Some(i),
{
    assert(is_first_containing(spans, position, i));
    let chosen = choose|c: int| is_first_containing(spans, position, c);
    if chosen < i {
        assert(!spans[chosen].range.contains(position));
    } else if i < chosen {
        assert(spans.take(chosen)[i] == spans[i]);
    }
}

/// Where some span contains the position, a first one does.
pub proof fn lemma_some_containing(spans: Seq<Span>, position: Position)
    requires
        !none_contains(spans, position),
    ensures
        first_containing(spans, position) matches Some(i) && is_first_containing(spans, position, i),
    decreases spans.len(),
{
    let j = choose|j: int| 0 <= j < spans.len() && (#[trigger] spans[j]).range.contains(position);
    if none_contains(spans.take(j), position) {
        assert(is_first_containing(spans, position, j));
    } else {
        lemma_some_containing(spans.take(j), position);
        let i = first_containing(spans.take(j), position)->Some_0;
        assert(spans.take(j).take(i) =~= spans.take(i));
        assert(spans.take(j)[i] == spans[i]);
        assert(is_first_containing(spans, position, i));
    }
}

/// What a LaTeX document says about its labels.
#[derive(Clone, Debug, PartialEq, Eq)]
pub struct LatexSymbolTable {
    pub labels: Vec<LatexLabel>,
}

impl LatexSymbolTable {
    /// Every label name that occurs in the document, in source order.
    pub open spec fn names(&self) -> Seq<Span> {
        names_of(self.labels@, self.labels@.len() as int)
    }

    /// No two name occurrences share a position.
    pub open spec fn names_disjoint(&self) -> bool {
        forall|i: int, j: int|
            0 <= i < j < self.names().len() ==> (#[trigger] self.names()[i]).range.disjoint_from(
                (#[trigger] self.names()[j]).range,
            )
    }
}

} // verus!
