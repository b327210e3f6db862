use std::sync::Arc;
use tex_features::feature::{ChoiceProvider, FeatureOutput, FeatureProvider, FeatureRequest};
use tex_features::protocol::Uri;
use tex_features::syntax::LatexSymbolTable;
use tex_features::workspace::{Document, DocumentContent};

/// Providers for the tests: what each does when it is run.
enum Scripted {
    Absent,
    Present(u32),
    Echo,
    MustNotRun,
}

impl FeatureProvider for Scripted {
    type Params = u32;
    type Output = Option<u32>;

    fn execute(&self, request: &FeatureRequest<u32>) -> Option<u32> {
        match self {
            Scripted::Absent => None,
            Scripted::Present(value) => Some(*value),
            Scripted::Echo => Some(request.params),
            Scripted::MustNotRun => panic!("a provider behind a usable answer was run"),
        }
    }
}

enum Listing {
    Empty,
    Items(Vec<u32>),
    MustNotRun,
}

impl FeatureProvider for Listing {
    type Params = u32;
    type Output = Vec<u32>;

    fn execute(&self, _request: &FeatureRequest<u32>) -> Vec<u32> {
        match self {
            Listing::Empty => Vec::new(),
            Listing::Items(items) => items.clone(),
            Listing::MustNotRun => panic!("a provider behind a usable answer was run"),
        }
    }
}

fn request(params: u32) -> FeatureRequest<u32> {
    let document = Document::new(
        Uri::new("main.tex".to_owned()),
        String::new(),
        DocumentContent::Latex(LatexSymbolTable { labels: Vec::new() }),
    );
    FeatureRequest::new(params, Arc::new(document), Vec::new())
}

#[test]
fn second_provider_answers_when_the_first_declines() {
    let choice = ChoiceProvider::new(vec![Scripted::Absent, Scripted::Echo]);
    for params in [0, 1, 17, u32::MAX] {
        assert_eq!(choice.execute(&request(params)), Some(params));
    }
}

#[test]
fn provider_behind_a_usable_answer_is_not_run() {
    let choice = ChoiceProvider::new(vec![Scripted::Present(1), Scripted::MustNotRun]);
    assert_eq!(choice.execute(&request(5)), Some(1));
}

#[test]
fn earlier_provider_wins() {
    let choice = ChoiceProvider::new(vec![
        Scripted::Absent,
        Scripted::Present(2),
        Scripted::Present(3),
        Scripted::MustNotRun,
    ]);
    assert_eq!(choice.execute(&request(0)), Some(2));
}

#[test]
fn nothing_when_every_provider_declines() {
    let choice = ChoiceProvider::new(vec![Scripted::Absent, Scripted::Absent]);
    assert_eq!(choice.execute(&request(0)), None);
}

#[test]
fn nothing_without_providers() {
    let choice: ChoiceProvider<Scripted> = ChoiceProvider::new(Vec::new());
    assert_eq!(choice.execute(&request(0)), None);
    let choice: ChoiceProvider<Listing> = ChoiceProvider::new(Vec::new());
    assert_eq!(choice.execute(&request(0)), Vec::<u32>::new());
}

#[test]
fn first_list_with_an_item_is_returned() {
    let choice = ChoiceProvider::new(vec![
        Listing::Empty,
        Listing::Items(vec![4, 5]),
        Listing::MustNotRun,
    ]);
    assert_eq!(choice.execute(&request(0)), vec![4, 5]);
    let choice = ChoiceProvider::new(vec![Listing::Empty, Listing::Empty]);
    assert_eq!(choice.execute(&request(0)), Vec::<u32>::new());
}

#[test]
fn choices_nest() {
    let inner = ChoiceProvider::new(vec![Scripted::Absent, Scripted::Present(9)]);
    let declining = ChoiceProvider::new(vec![Scripted::Absent]);
    let outer = ChoiceProvider::new(vec![declining, inner]);
    assert_eq!(outer.execute(&request(0)), Some(9));
}

#[test]
fn usable_outputs() {
    assert!(Some(1).is_usable());
    assert!(!None::<u32>.is_usable());
    assert!(vec![1].is_usable());
    assert!(!Vec::<u32>::new().is_usable());
    assert_eq!(<Option<u32> as FeatureOutput>::absent(), None);
    assert_eq!(<Vec<u32> as FeatureOutput>::absent(), Vec::<u32>::new());
}

#[test]
fn request_hands_out_its_documents() {
    let first = request(3);
    let other = Arc::new(Document::new(
        Uri::new("other.tex".to_owned()),
        "text".to_owned(),
        DocumentContent::Latex(LatexSymbolTable { labels: Vec::new() }),
    ));
    let second = FeatureRequest::new(4u32, first.current.clone(), vec![other.clone()]);
    assert_eq!(second.params, 4);
    assert_eq!(second.current().uri, Uri::new("main.tex".to_owned()));
    assert_eq!(second.related().len(), 1);
    assert!(Arc::ptr_eq(&second.related()[0], &other));
    assert!(first.related().is_empty());
}
