//! Completion items for the things that can be completed.

use crate::data::language::{BibtexEntryTypeDoc, BibtexEntryTypeDocView};
use crate::protocol::CompletionItem;
use std::sync::Arc;
use vstd::prelude::*;

verus! {

/// What a completion item says: its label and its documentation.
pub struct CompletionItemView {
    pub label: Seq<char>,
    pub documentation: Seq<char>,
}

impl View for CompletionItem {
    type V = CompletionItemView;

    open spec fn view(&self) -> CompletionItemView {
        CompletionItemView { label: self.label@, documentation: self.documentation@ }
    }
}

/// The items of a shared list, each taken as what it says.
pub open spec fn items_view(items: Seq<Arc<CompletionItem>>) -> Seq<CompletionItemView> {
    items.map_values(|item: Arc<CompletionItem>| item@)
}

/// The item that offers an entry type.
pub open spec fn entry_type_item(ty: BibtexEntryTypeDocView) -> CompletionItemView {
    CompletionItemView { label: ty.name, documentation: ty.documentation }
}

/// Makes the item that offers an entry type: the name is the label.
pub fn create_entry_type(ty: &BibtexEntryTypeDoc) -> (item: CompletionItem)
    ensures
        item@ == entry_type_item(ty@),
{
    CompletionItem { label: ty.name.clone(), documentation: ty.documentation.clone() }
}

} // verus!
