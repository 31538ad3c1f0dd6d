use pastery::resolve::{artifact_path, on_metadata, on_open, MetaProbe, OpenProbe, ResolveStep, RetrievalOutcome};
use pastery::respond::{build_response, Response};

#[test]
fn absent_artifact_is_not_found() {
    let step = on_metadata::<Vec<u8>>(MetaProbe::Missing);
    let outcome = match step {
        ResolveStep::Done { outcome } => outcome,
        ResolveStep::NeedOpen { .. } => panic!("missing artifact must not proceed to open"),
    };
    assert!(matches!(outcome, RetrievalOutcome::NotFound));
    // The 404 answer does not depend on whether an extension hint came along.
    let bare = build_response("doesnotexist", RetrievalOutcome::<Vec<u8>>::NotFound, None);
    match bare {
        Response::NotFound { id } => assert_eq!(id, "doesnotexist"),
        _ => panic!("expected the not-found response"),
    }
    let hinted = build_response("doesnotexist", RetrievalOutcome::<Vec<u8>>::NotFound, Some("rs"));
    assert!(matches!(hinted, Response::NotFound { .. }));
}

#[test]
fn metadata_fault_is_server_error() {
    let step = on_metadata::<Vec<u8>>(MetaProbe::Failed { message: String::from("permission denied") });
    let outcome = match step {
        ResolveStep::Done { outcome } => outcome,
        ResolveStep::NeedOpen { .. } => panic!("a probe fault must not proceed to open"),
    };
    let r = build_response("abc123", outcome, None);
    match r {
        Response::ServerError { message } => assert_eq!(message, "permission denied"),
        _ => panic!("expected the server-error response"),
    }
}

#[test]
fn successful_probe_proceeds_to_open() {
    let step = on_metadata::<Vec<u8>>(MetaProbe::Probed { modified_at: 1234 });
    match step {
        ResolveStep::NeedOpen { modified_at } => assert_eq!(modified_at, 1234),
        ResolveStep::Done { .. } => panic!("a successful probe must proceed to open"),
    }
}

#[test]
fn deletion_race_is_not_found() {
    // Metadata succeeded, but the file was gone by the time of the open:
    // still a not-found, never a server error.
    let outcome = on_open(1234, OpenProbe::<Vec<u8>>::Missing);
    assert!(matches!(outcome, RetrievalOutcome::NotFound));
}

#[test]
fn open_fault_is_server_error() {
    let outcome = on_open(1234, OpenProbe::<Vec<u8>>::Failed { message: String::from("io fault") });
    match outcome {
        RetrievalOutcome::IoFailure { detail } => assert_eq!(detail, "io fault"),
        _ => panic!("expected an I/O failure outcome"),
    }
}

#[test]
fn raw_round_trip_preserves_bytes() {
    let stored: Vec<u8> = b"fn main() {}".to_vec();
    let outcome = on_open(77, OpenProbe::Opened { handle: stored.clone() });
    let r = build_response("abc123", outcome, None);
    match r {
        Response::Raw { handle, modified_at } => {
            assert_eq!(handle, stored);
            assert_eq!(modified_at, 77);
        },
        _ => panic!("a found artifact without a hint must be delivered raw"),
    }
}

#[test]
fn known_hint_selects_table_mime() {
    let stored: Vec<u8> = b"{\"k\": 1}".to_vec();
    let outcome = RetrievalOutcome::Found { handle: stored.clone(), modified_at: 9 };
    let r = build_response("abc123", outcome, Some("json"));
    match r {
        Response::MimeTyped { handle, modified_at, mime } => {
            assert_eq!(handle, stored);
            assert_eq!(modified_at, 9);
            assert_eq!(mime, "application/json");
        },
        _ => panic!("a known extension hint must be answered MIME-typed"),
    }
}

#[test]
fn unknown_hint_falls_back_to_raw() {
    let stored: Vec<u8> = b"abc".to_vec();
    let outcome = RetrievalOutcome::Found { handle: stored.clone(), modified_at: 3 };
    let r = build_response("abc123", outcome, Some("zzznosuchext"));
    match r {
        Response::Raw { handle, modified_at } => {
            assert_eq!(handle, stored);
            assert_eq!(modified_at, 3);
        },
        _ => panic!("an unknown extension hint must fall back to raw delivery"),
    }
}

#[test]
fn empty_hint_falls_back_to_raw() {
    let outcome = RetrievalOutcome::Found { handle: vec![1u8], modified_at: 3 };
    let r = build_response("abc123", outcome, Some(""));
    assert!(matches!(r, Response::Raw { .. }));
}

#[test]
fn artifact_path_joins_root_and_id() {
    let p = artifact_path("uploads", "abc123");
    assert_eq!(p, "uploads/abc123");
}

#[test]
fn error_detail_carries_the_message() {
    let e = pastery::error::Error::Io(String::from("disk unplugged"));
    assert_eq!(e.detail(), "disk unplugged");
}
