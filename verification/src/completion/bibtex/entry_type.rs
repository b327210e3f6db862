//! Completion of the entry type behind an `@`.

use crate::completion::factory::{create_entry_type, entry_type_item, items_view, CompletionItemView};
use crate::data::language::{entry_type_table, entry_types, entry_types_view, BibtexEntryTypeDocView};
use crate::feature::{FeatureProvider, FeatureRequest};
use crate::protocol::{CompletionItem, CompletionParams, Position};
use crate::syntax::BibtexSyntaxTree;
use crate::workspace::DocumentContent;
use std::sync::Arc;
use vstd::prelude::*;

verus! {

/// One item for each entry type, in the order of the table.
pub open spec fn entry_type_catalog() -> Seq<CompletionItemView> {
    entry_type_table().map_values(|ty: BibtexEntryTypeDocView| entry_type_item(ty))
}

/// The cursor is in the type field of a declaration of a BibTeX document.
pub open spec fn in_entry_type(content: DocumentContent, position: Position) -> bool {
    match content {
        DocumentContent::Bibtex(tree) => tree.in_type_field(position),
        DocumentContent::Latex(_) => false,
    }
}

/// `Arc::clone`: a second handle to the same allocation, so it holds the
/// value that the first one holds.
#[verifier::external_body]
fn share(item: &Arc<CompletionItem>) -> (shared: Arc<CompletionItem>)
    ensures
        shared == *item,
{
    Arc::clone(item)
}

/// Offers every entry type where the cursor is in the type field of a
/// declaration.
///
/// The items are made once, when the provider is made, and every answer
/// shares them.
#[derive(Debug, PartialEq)]
pub struct BibtexEntryTypeCompletionProvider {
    items: Vec<Arc<CompletionItem>>,
}

impl BibtexEntryTypeCompletionProvider {
    /// The items that the provider shares with its answers.
    pub closed spec fn items(&self) -> Seq<Arc<CompletionItem>> {
        self.items@
    }

    #[verifier::type_invariant]
    spec fn holds_catalog(self) -> bool {
        items_view(self.items()) == entry_type_catalog()
    }

    /// Makes the items of the catalog, once for all answers.
    pub fn new() -> (provider: Self)
        ensures
            items_view(provider.items()) == entry_type_catalog(),
    {
        let types = entry_types();
        let mut items: Vec<Arc<CompletionItem>> = Vec::new();
        let mut i: usize = 0;
        while i < types.len()
            invariant
                i <= types@.len(),
                entry_types_view(types@) == entry_type_table(),
                items@.len() == i,
                forall|k: int| 0 <= k < i ==> (#[trigger] items@[k])@ == entry_type_item(types@[k]@),
            decreases types@.len() - i,
        {
            items.push(Arc::new(create_entry_type(&types[i])));
            i += 1;
        }
        proof {
            assert forall|k: int| 0 <= k < items@.len() implies #[trigger] items_view(items@)[k]
                == entry_type_catalog()[k] by {
                assert(entry_types_view(types@)[k] == types@[k]@);
            }
            assert(items_view(items@) =~= entry_type_catalog());
        }
        BibtexEntryTypeCompletionProvider { items }
    }

    /// The items, shared with the provider.
    fn shared_items(&self) -> (items: Vec<Arc<CompletionItem>>)
        ensures
            items_view(items@) == entry_type_catalog(),
    {
        proof {
            use_type_invariant(self);
        }
        let mut items: Vec<Arc<CompletionItem>> = Vec::new();
        let mut i: usize = 0;
        while i < self.items.len()
            invariant
                i <= self.items@.len(),
                items@ == self.items@.take(i as int),
            decreases self.items@.len() - i,
        {
            items.push(share(&self.items[i]));
            assert(items@ =~= self.items@.take(i + 1));
            i += 1;
        }
        assert(items@ =~= self.items@);
        items
    }
}

impl FeatureProvider for BibtexEntryTypeCompletionProvider {
    type Params = CompletionParams;

    type Output = Vec<Arc<CompletionItem>>;

    /// The whole catalog where the cursor is in a type field of a BibTeX
    /// document, and nothing anywhere else.
    open spec fn yields(
        &self,
        request: &FeatureRequest<CompletionParams>,
        output: Vec<Arc<CompletionItem>>,
    ) -> bool {
        items_view(output@) == if in_entry_type(request.current.content, request.params.position) {
            entry_type_catalog()
        } else {
            Seq::empty()
        }
    }

    fn execute(&self, request: &FeatureRequest<CompletionParams>) -> (output: Vec<Arc<CompletionItem>>) {
        match &request.current().content {
            DocumentContent::Bibtex(tree) => match tree.find_type_field(request.params.position) {
                Some(_) => self.shared_items(),
                None => {
                    let output: Vec<Arc<CompletionItem>> = Vec::new();
                    assert(items_view(output@) =~= Seq::empty());
                    output
                },
            },
            DocumentContent::Latex(_) => {
                let output: Vec<Arc<CompletionItem>> = Vec::new();
                assert(items_view(output@) =~= Seq::empty());
                output
            },
        }
    }
}

/// In a BibTeX document, a cursor in the type field of a preamble, a string
/// or an entry is answered with the whole catalog, which is not empty.
pub proof fn lemma_completion_in_type_field(
    provider: BibtexEntryTypeCompletionProvider,
    request: &FeatureRequest<CompletionParams>,
    tree: BibtexSyntaxTree,
    i: int,
    output: Vec<Arc<CompletionItem>>,
)
    requires
        request.current.content == DocumentContent::Bibtex(tree),
        0 <= i < tree.children@.len(),
        !(tree.children@[i] is Comment),
        tree.children@[i].spec_type_range()->Some_0.contains(request.params.position),
        provider.yields(request, output),
    ensures
        items_view(output@) == entry_type_catalog(),
        output@.len() == entry_type_table().len(),
        output@.len() > 0,
{
    assert(tree.children@[i].type_field_contains(request.params.position));
    assert(items_view(output@).len() == output@.len());
    assert(entry_type_catalog().len() == entry_type_table().len());
}

/// A cursor outside every type field is answered with nothing: in the body
/// of an entry, in a comment, or in a document that is not BibTeX.
pub proof fn lemma_completion_elsewhere(
    provider: BibtexEntryTypeCompletionProvider,
    request: &FeatureRequest<CompletionParams>,
    output: Vec<Arc<CompletionItem>>,
)
    requires
        request.current.content matches DocumentContent::Bibtex(tree) ==> forall|i: int|
            0 <= i < tree.children@.len() ==> !(#[trigger] tree.children@[i]).type_field_contains(
                request.params.position,
            ),
        provider.yields(request, output),
    ensures
        output@.len() == 0,
{
    assert(items_view(output@).len() == output@.len());
}

/// The catalog has an item for each entry type and is not empty.
pub proof fn lemma_catalog_not_empty()
    ensures
        entry_type_catalog().len() == entry_type_table().len(),
        entry_type_catalog().len() > 0,
{
}

} // verus!
