//! Requests, providers, and the combinator that tries providers in order.

use crate::workspace::Document;
use std::sync::Arc;
use vstd::prelude::*;

verus! {

/// What a provider works on: the parameters of the request, the document the
/// cursor is in, and the documents that the workspace relates to it.
pub struct FeatureRequest<P> {
    pub params: P,
    pub current: Arc<Document>,
    pub related: Vec<Arc<Document>>,
}

impl<P> FeatureRequest<P> {
    pub fn new(params: P, current: Arc<Document>, related: Vec<Arc<Document>>) -> (request: Self)
        ensures
            request.params == params,
            request.current == current,
            request.related == related,
    {
        FeatureRequest { params, current, related }
    }

    pub fn current(&self) -> (document: &Document)
        ensures
            *document == *self.current,
    {
        &self.current
    }

    pub fn related(&self) -> (documents: &Vec<Arc<Document>>)
        ensures
            documents@ == self.related@,
    {
        &self.related
    }

    /// The current document followed by the related ones, in their order.
    pub open spec fn documents(&self) -> Seq<Document> {
        seq![*self.current] + self.related@.map_values(|document: Arc<Document>| *document)
    }
}

/// An output that can tell whether it is worth returning.
pub trait FeatureOutput: Sized {
    /// An option that holds a value, a list that holds an item.
    spec fn usable(&self) -> bool;

    fn is_usable(&self) -> (b: bool)
        ensures
            b == self.usable(),
    ;

    /// The output that stands for "nothing applies here".
    fn absent() -> (output: Self)
        ensures
            !output.usable(),
    ;
}

impl<T> FeatureOutput for Option<T> {
    open spec fn usable(&self) -> bool {
        self is Some
    }

    fn is_usable(&self) -> (b: bool) {
        self.is_some()
    }

    fn absent() -> (output: Self) {
        None
    }
}

impl<T> FeatureOutput for Vec<T> {
    open spec fn usable(&self) -> bool {
        self@.len() > 0
    }

    fn is_usable(&self) -> (b: bool) {
        self.len() > 0
    }

    fn absent() -> (output: Self) {
        Vec::new()
    }
}

/// One way of answering a request.
///
/// A provider reads the request and nothing else. `yields` relates a request
/// to the answers that the provider may give to it, and `accepts` says on
/// which requests the provider may be run at all. A provider that says
/// neither can be run on every request and promises nothing of its answer.
pub trait FeatureProvider {
    type Params;

    type Output;

    open spec fn accepts(&self, request: &FeatureRequest<Self::Params>) -> bool {
        true
    }

    open spec fn yields(&self, request: &FeatureRequest<Self::Params>, output: Self::Output) -> bool {
        true
    }

    fn execute(&self, request: &FeatureRequest<Self::Params>) -> (output: Self::Output)
        requires
            self.accepts(request),
        ensures
            self.yields(request, output),
    ;
}

/// The provider may answer the request with an output that is not usable.
pub open spec fn may_decline<T: FeatureProvider>(
    provider: T,
    request: &FeatureRequest<T::Params>,
) -> bool where T::Output: FeatureOutput {
    exists|output: T::Output| #[trigger] provider.yields(request, output) && !output.usable()
}

/// Each of the first `count` providers may decline the request.
pub open spec fn all_may_decline<T: FeatureProvider>(
    providers: Seq<T>,
    count: int,
    request: &FeatureRequest<T::Params>,
) -> bool where T::Output: FeatureOutput {
    forall|j: int| 0 <= j < count ==> may_decline(#[trigger] providers[j], request)
}

/// Every answer of the provider to the request is usable.
pub open spec fn always_usable<T: FeatureProvider>(
    provider: T,
    request: &FeatureRequest<T::Params>,
) -> bool where T::Output: FeatureOutput {
    forall|output: T::Output| #[trigger] provider.yields(request, output) ==> output.usable()
}

/// No answer of the provider to the request is usable.
pub open spec fn never_usable<T: FeatureProvider>(
    provider: T,
    request: &FeatureRequest<T::Params>,
) -> bool where T::Output: FeatureOutput {
    forall|output: T::Output| #[trigger] provider.yields(request, output) ==> !output.usable()
}

/// The choice among the providers falls at `k`: every provider before the
/// `k`-th may decline the request, and the output is a usable answer of the
/// `k`-th, or, where `k` is the number of providers, an output that is not
/// usable.
pub open spec fn decided_at<T: FeatureProvider>(
    providers: Seq<T>,
    k: int,
    request: &FeatureRequest<T::Params>,
    output: T::Output,
) -> bool where T::Output: FeatureOutput {
    &&& 0 <= k <= providers.len()
    &&& all_may_decline(providers, k, request)
    &&& if k < providers.len() {
        providers[k].yields(request, output) && output.usable()
    } else {
        !output.usable()
    }
}

/// Providers of one kind of output, in order of priority.
///
/// The first provider with a usable answer decides; the providers behind it
/// are not run.
pub struct ChoiceProvider<T> {
    providers: Vec<T>,
}

impl<T> View for ChoiceProvider<T> {
    type V = Seq<T>;

    closed spec fn view(&self) -> Seq<T> {
        self.providers@
    }
}

impl<T> ChoiceProvider<T> {
    pub fn new(providers: Vec<T>) -> (choice: Self)
        ensures
            choice@ == providers@,
    {
        ChoiceProvider { providers }
    }
}

impl<T: FeatureProvider> FeatureProvider for ChoiceProvider<T> where T::Output: FeatureOutput {
    type Params = T::Params;

    type Output = T::Output;

    /// A provider has to accept the request only if every provider before it
    /// may decline: behind a provider that always has a usable answer,
    /// nothing is asked of the others.
    open spec fn accepts(&self, request: &FeatureRequest<T::Params>) -> bool {
        forall|k: int|
            0 <= k < self@.len() && all_may_decline(self@, k, request) ==> (#[trigger] self@[k]).accepts(request)
    }

    /// The output is the usable answer of some provider before which every
    /// provider declined, or, where all of them declined, an output that is
    /// not usable.
    open spec fn yields(&self, request: &FeatureRequest<T::Params>, output: T::Output) -> bool {
        exists|k: int| decided_at(self@, k, request, output)
    }

    fn execute(&self, request: &FeatureRequest<T::Params>) -> (output: T::Output) {
        let mut i: usize = 0;
        while i < self.providers.len()
            invariant
                i <= self@.len(),
                self@ == self.providers@,
                self.accepts(request),
                all_may_decline(self@, i as int, request),
            decreases self@.len() - i,
        {
            let output = self.providers[i].execute(request);
            if output.is_usable() {
                assert(decided_at(self@, i as int, request, output));
                return output;
            }
            i += 1;
        }
        let output = T::Output::absent();
        assert(decided_at(self@, i as int, request, output));
        output
    }
}

impl<T: FeatureProvider> ChoiceProvider<T> where T::Output: FeatureOutput {
    /// Where every provider before the `k`-th never has a usable answer and
    /// the `k`-th always has one, the choice returns an answer of the `k`-th.
    pub proof fn lemma_first_usable_decides(
        self,
        k: int,
        request: &FeatureRequest<T::Params>,
        output: T::Output,
    )
        requires
            0 <= k < self@.len(),
            forall|j: int| 0 <= j < k ==> never_usable(#[trigger] self@[j], request),
            always_usable(self@[k], request),
            self.yields(request, output),
        ensures
            self@[k].yields(request, output),
            output.usable(),
    {
        let chosen = choose|c: int| decided_at(self@, c, request, output);
        if chosen < k {
            assert(never_usable(self@[chosen], request));
        } else if chosen > k {
            assert(may_decline(self@[k], request));
        }
    }

    /// Behind a provider that always has a usable answer no provider is run:
    /// the choice accepts the request whatever the later providers accept.
    pub proof fn lemma_later_providers_not_run(self, k: int, request: &FeatureRequest<T::Params>)
        requires
            0 <= k < self@.len(),
            forall|j: int| 0 <= j <= k ==> (#[trigger] self@[j]).accepts(request),
            always_usable(self@[k], request),
        ensures
            self.accepts(request),
    {
        assert forall|c: int| 0 <= c < self@.len() && all_may_decline(self@, c, request) implies (
        #[trigger] self@[c]).accepts(request) by {
            if c > k {
                assert(may_decline(self@[k], request));
            }
        }
    }

    /// Where no provider ever has a usable answer, the choice has none.
    pub proof fn lemma_all_decline(self, request: &FeatureRequest<T::Params>, output: T::Output)
        requires
            forall|j: int| 0 <= j < self@.len() ==> never_usable(#[trigger] self@[j], request),
            self.yields(request, output),
        ensures
            !output.usable(),
    {
        let chosen = choose|c: int| decided_at(self@, c, request, output);
        if chosen < self@.len() {
            assert(never_usable(self@[chosen], request));
        }
    }

    /// A choice among providers that accept every request accepts every request.
    pub proof fn lemma_accepts_when_all_accept(self, request: &FeatureRequest<T::Params>)
        requires
            forall|j: int| 0 <= j < self@.len() ==> (#[trigger] self@[j]).accepts(request),
        ensures
            self.accepts(request),
    {
    }
}

} // verus!
