//! End-to-end scenario over the whole pipeline: store, retrieve raw,
//! retrieve with an extension hint, render a pretty view, miss.

use pastery::catalog::SyntaxCatalog;
use pastery::render::render;
use pastery::resolve::{on_metadata, on_open, MetaProbe, OpenProbe, ResolveStep, RetrievalOutcome};
use pastery::respond::{build_response, Response};

use syntect::highlighting::Theme;
use syntect::parsing::SyntaxSet;

const CONTENT: &str = "fn main() {}";
const STORED_AT: u64 = 1_700_000_000;

fn resolve_stored(id: &str) -> RetrievalOutcome<Vec<u8>> {
    // The artifact "abc123" exists with the known content; everything else
    // is absent from the store.
    if id == "abc123" {
        let step = on_metadata::<Vec<u8>>(MetaProbe::Probed { modified_at: STORED_AT });
        match step {
            ResolveStep::NeedOpen { modified_at } => {
                on_open(modified_at, OpenProbe::Opened { handle: CONTENT.as_bytes().to_vec() })
            },
            ResolveStep::Done { outcome } => outcome,
        }
    } else {
        match on_metadata::<Vec<u8>>(MetaProbe::Missing) {
            ResolveStep::Done { outcome } => outcome,
            ResolveStep::NeedOpen { .. } => panic!("a missing artifact must not be opened"),
        }
    }
}

#[test]
fn scenario_retrieve_raw() {
    let r = build_response("abc123", resolve_stored("abc123"), None);
    match r {
        Response::Raw { handle, modified_at } => {
            assert_eq!(handle, CONTENT.as_bytes().to_vec());
            assert_eq!(modified_at, STORED_AT);
        },
        _ => panic!("expected raw delivery of the stored artifact"),
    }
}

#[test]
fn scenario_pretty_view_applies_rust_grammar() {
    let catalog =
        SyntaxCatalog::from_parts(SyntaxSet::load_defaults_newlines(), Theme::default()).unwrap();
    let outcome = resolve_stored("abc123");
    let body = match outcome {
        RetrievalOutcome::Found { handle, modified_at } => {
            assert_eq!(modified_at, STORED_AT);
            String::from_utf8(handle).unwrap()
        },
        _ => panic!("the stored artifact must be found"),
    };
    let html = render(&body, "rs", &catalog).unwrap();
    assert!(html.contains("<span"));
    assert!(html.contains("fn"));
    assert!(html.contains("main"));
}

#[test]
fn scenario_miss_is_not_found() {
    let r = build_response("doesnotexist", resolve_stored("doesnotexist"), None);
    match r {
        Response::NotFound { id } => assert_eq!(id, "doesnotexist"),
        _ => panic!("an absent identifier must be answered not-found"),
    }
}
