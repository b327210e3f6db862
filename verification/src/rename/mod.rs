//! Renaming, for every kind of symbol that can be renamed.

pub mod latex_label;

use crate::feature::{may_decline, ChoiceProvider, FeatureProvider, FeatureRequest};
use crate::protocol::{Range, RenameParams, TextDocumentPositionParams, WorkspaceEdit};
use crate::rename::latex_label::{LatexLabelPrepareRenameProvider, LatexLabelRenameProvider};
use vstd::prelude::*;

verus! {

/// Says whether the symbol under the cursor can be renamed, and which range
/// of text a rename would replace there.
pub struct PrepareRenameProvider {
    provider: ChoiceProvider<LatexLabelPrepareRenameProvider>,
}

impl PrepareRenameProvider {
    /// The providers that are asked, in their order.
    pub closed spec fn providers(&self) -> Seq<LatexLabelPrepareRenameProvider> {
        self.provider@
    }

    #[verifier::type_invariant]
    spec fn registered(self) -> bool {
        self.providers() =~= seq![LatexLabelPrepareRenameProvider]
    }

    pub fn new() -> (provider: Self)
        ensures
            provider.providers() == seq![LatexLabelPrepareRenameProvider],
    {
        let provider = ChoiceProvider::new(vec![LatexLabelPrepareRenameProvider]);
        assert(provider@ =~= seq![LatexLabelPrepareRenameProvider]);
        PrepareRenameProvider { provider }
    }
}

impl Default for PrepareRenameProvider {
    fn default() -> (provider: Self)
        ensures
            provider.providers() == seq![LatexLabelPrepareRenameProvider],
    {
        Self::new()
    }
}

impl FeatureProvider for PrepareRenameProvider {
    type Params = TextDocumentPositionParams;

    type Output = Option<Range>;

    /// What the provider for labels yields.
    open spec fn yields(
        &self,
        request: &FeatureRequest<TextDocumentPositionParams>,
        output: Option<Range>,
    ) -> bool {
        LatexLabelPrepareRenameProvider.yields(request, output)
    }

    fn execute(&self, request: &FeatureRequest<TextDocumentPositionParams>) -> (output: Option<Range>) {
        proof {
            use_type_invariant(self);
            self.provider.lemma_accepts_when_all_accept(request);
        }
        let output = self.provider.execute(request);
        proof {
            if output is None {
                assert(may_decline(self.provider@[0], request));
            }
        }
        output
    }
}

/// Computes the edits that rename the symbol under the cursor.
pub struct RenameProvider {
    provider: ChoiceProvider<LatexLabelRenameProvider>,
}

impl RenameProvider {
    /// The providers that are asked, in their order.
    pub closed spec fn providers(&self) -> Seq<LatexLabelRenameProvider> {
        self.provider@
    }

    #[verifier::type_invariant]
    spec fn registered(self) -> bool {
        self.providers() =~= seq![LatexLabelRenameProvider]
    }

    pub fn new() -> (provider: Self)
        ensures
            provider.providers() == seq![LatexLabelRenameProvider],
    {
        let provider = ChoiceProvider::new(vec![LatexLabelRenameProvider]);
        assert(provider@ =~= seq![LatexLabelRenameProvider]);
        RenameProvider { provider }
    }
}

impl Default for RenameProvider {
    fn default() -> (provider: Self)
        ensures
            provider.providers() == seq![LatexLabelRenameProvider],
    {
        Self::new()
    }
}

impl FeatureProvider for RenameProvider {
    type Params = RenameParams;

    type Output = Option<WorkspaceEdit>;

    /// What the provider for labels yields.
    open spec fn yields(
        &self,
        request: &FeatureRequest<RenameParams>,
        output: Option<WorkspaceEdit>,
    ) -> bool {
        LatexLabelRenameProvider.yields(request, output)
    }

    fn execute(&self, request: &FeatureRequest<RenameParams>) -> (output: Option<WorkspaceEdit>) {
        proof {
            use_type_invariant(self);
            self.provider.lemma_accepts_when_all_accept(request);
        }
        let output = self.provider.execute(request);
        proof {
            if output is None {
                assert(may_decline(self.provider@[0], request));
            }
        }
        output
    }
}

} // verus!
