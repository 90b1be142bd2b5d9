use pop_container_builder::error::{ErrorKind, PipelineError};
use pop_container_builder::handoff::{corrections, Correction, Ownership};
use pop_container_builder::identity::{
    classify, identify, recall, Identity, Lookup, CACHE_PATH, PLACEHOLDER,
};
use pop_container_builder::outcome::{parse_handle, Outcome};
use pop_container_builder::stage::Stage;

#[test]
fn handle_drops_the_line_end() {
    assert_eq!(parse_handle(b"working-container\n"), Some("working-container".to_string()));
}

#[test]
fn handle_drops_exactly_one_byte() {
    assert_eq!(parse_handle(b"abc"), Some("ab".to_string()));
    assert_eq!(parse_handle(b"abc\n\n"), Some("abc\n".to_string()));
    assert_eq!(parse_handle(b"\n"), Some(String::new()));
}

#[test]
fn handle_may_hold_any_text() {
    assert_eq!(
        parse_handle("/var/lib/caf\u{e9}/\u{1f600}\n".as_bytes()),
        Some("/var/lib/caf\u{e9}/\u{1f600}".to_string())
    );
}

#[test]
fn handle_that_is_no_text_is_refused() {
    assert_eq!(parse_handle(&[0xff, 0xfe, b'\n']), None);
    assert_eq!(parse_handle(&[b'a', 0xc3, b'\n']), None);
}

#[test]
fn handle_is_judged_without_its_last_byte() {
    assert_eq!(parse_handle(&[b'a', 0xff]), Some("a".to_string()));
}

#[test]
fn process_with_status_zero_completes() {
    assert_eq!(
        Outcome::of_process(Some(0), b"out\n".to_vec()),
        Outcome::Completed { output: b"out\n".to_vec() }
    );
}

#[test]
fn process_with_other_status_fails() {
    for status in [1, 2, 127, -1, i32::MAX, i32::MIN] {
        assert_eq!(
            Outcome::of_process(Some(status), b"out\n".to_vec()),
            Outcome::Failed {
                kind: ErrorKind::Io,
                detail: "the tool ended with a failure status".to_string(),
            }
        );
    }
}

#[test]
fn process_without_status_fails() {
    assert_eq!(
        Outcome::of_process(None, Vec::new()),
        Outcome::Failed {
            kind: ErrorKind::Io,
            detail: "the tool ended without a status".to_string(),
        }
    );
}

#[test]
fn completed_is_told_from_failed() {
    assert!(Outcome::Completed { output: Vec::new() }.is_completed());
    assert!(!Outcome::Failed { kind: ErrorKind::Collaborator, detail: String::new() }
        .is_completed());
}

#[test]
fn error_message_names_stage_kind_and_cause() {
    let error = PipelineError {
        stage: Stage::Bootstrap,
        kind: ErrorKind::Io,
        detail: "the tool ended with a failure status".to_string(),
    };
    assert_eq!(
        error.message(),
        "stage bootstrap failed (i/o): the tool ended with a failure status"
    );
}

#[test]
fn error_kinds_have_names() {
    assert_eq!(ErrorKind::Io.name(), "i/o");
    assert_eq!(ErrorKind::Encoding.name(), "encoding");
    assert_eq!(ErrorKind::Collaborator.name(), "collaborator");
    assert_eq!(ErrorKind::Identity.name(), "identity");
}

#[test]
fn error_copy_is_equal() {
    let error = PipelineError {
        stage: Stage::ExtraRepository { index: 3 },
        kind: ErrorKind::Collaborator,
        detail: "no such branch".to_string(),
    };
    assert_eq!(error.clone(), error);
    assert_eq!(
        error.clone().message(),
        "stage extra-repository failed (collaborator): no such branch"
    );
}

#[test]
fn ordinary_user_is_known_and_remembered() {
    assert_eq!(
        classify(Lookup::Named { name: "alice".to_string() }),
        Identity::Known { name: "alice".to_string(), remember: true }
    );
}

#[test]
fn administrator_means_escalated() {
    assert_eq!(classify(Lookup::Named { name: "root".to_string() }), Identity::Escalated);
}

#[test]
fn unknown_user_gets_the_placeholder() {
    assert_eq!(
        classify(Lookup::Missing),
        Identity::Known { name: "root".to_string(), remember: false }
    );
}

#[test]
fn unreadable_name_gets_the_placeholder_and_is_remembered() {
    assert_eq!(
        classify(Lookup::Unreadable),
        Identity::Known { name: "root".to_string(), remember: true }
    );
}

#[test]
fn names_close_to_the_administrator_are_ordinary() {
    for name in ["Root", "root ", "toor", ""] {
        assert_eq!(
            classify(Lookup::Named { name: name.to_string() }),
            Identity::Known { name: name.to_string(), remember: true }
        );
    }
}

#[test]
fn recall_uses_what_was_put_aside() {
    assert_eq!(recall(Some("alice".to_string())), "alice");
    assert_eq!(recall(Some(String::new())), "");
}

#[test]
fn recall_falls_back_to_the_placeholder() {
    assert_eq!(recall(None), "root");
    assert_eq!(PLACEHOLDER, "root");
    assert_eq!(CACHE_PATH, "/tmp/pop-container-name");
}

#[test]
fn lookup_of_this_process_is_classified() {
    match identify() {
        Identity::Known { name, remember } => {
            assert!(remember || name == PLACEHOLDER);
        }
        Identity::Escalated => {}
    }
}

#[test]
fn archive_is_handed_to_a_known_user() {
    assert_eq!(
        corrections(&Some("alice".to_string()), "pop-container-runtime.tar"),
        vec![
            Correction {
                ownership: Ownership::Owner,
                user: "alice".to_string(),
                path: "pop-container-runtime.tar".to_string(),
            },
            Correction {
                ownership: Ownership::Group,
                user: "alice".to_string(),
                path: "pop-container-runtime.tar".to_string(),
            },
        ]
    );
}

#[test]
fn archive_stays_where_no_user_is_known() {
    assert_eq!(corrections(&None, "pop-container-runtime.tar"), Vec::new());
}

#[test]
fn corrections_are_made_by_chown_and_chgrp() {
    assert_eq!(Ownership::Owner.tool(), "chown");
    assert_eq!(Ownership::Group.tool(), "chgrp");
}
