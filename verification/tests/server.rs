use auto_lsp::server::decisions::{after_watched_change, WatchedStep};
use auto_lsp::server::decisions::{
    add_file_outcome, dispatch_notification, dispatch_request, get_ast_parser, position_encoding,
    parser_needed, remove_file_outcome, text_encoding, watched_file_action, AddOutcome, ExtensionError, FileChange,
    MessageAction, RemoveOutcome, TextEncoding, WatchedFileAction,
};

#[test]
fn encodings() {
    assert_eq!(position_encoding(None), "utf-16");
    assert_eq!(position_encoding(Some("utf-8".to_string())), "utf-8");
    assert!(text_encoding(Some("utf-8")) == TextEncoding::Utf8);
    assert!(text_encoding(Some("utf-32")) == TextEncoding::Utf32);
    assert!(text_encoding(Some("utf-16")) == TextEncoding::Utf16);
    assert!(text_encoding(Some("latin-1")) == TextEncoding::Utf16);
    assert!(text_encoding(None) == TextEncoding::Utf16);
}

#[test]
fn dispatch() {
    assert!(matches!(dispatch_request(true, true, true, "shutdown"), MessageAction::Exit));
    assert!(matches!(dispatch_request(false, true, true, "textDocument/hover"), MessageAction::Spawn));
    assert!(matches!(dispatch_request(false, false, true, "textDocument/hover"), MessageAction::RunSync));
    match dispatch_request(false, false, false, "foo/bar") {
        MessageAction::Unknown(m) => assert_eq!(m, "Unknown request: foo/bar"),
        _ => panic!("unknown"),
    }
    assert!(matches!(dispatch_notification(true, false, "x"), MessageAction::Spawn));
    assert!(matches!(dispatch_notification(false, true, "x"), MessageAction::RunSync));
    match dispatch_notification(false, false, "x/y") {
        MessageAction::Unknown(m) => assert_eq!(m, "Unknown notification: x/y"),
        _ => panic!("unknown"),
    }
}

#[test]
fn watched_files() {
    assert!(watched_file_action(false, FileChange::Created, false, true) == WatchedFileAction::Ignore);
    assert!(watched_file_action(true, FileChange::Created, false, true) == WatchedFileAction::Create);
    assert!(watched_file_action(true, FileChange::Created, true, true) == WatchedFileAction::Ignore);
    assert!(watched_file_action(true, FileChange::Created, false, false) == WatchedFileAction::Ignore);
    assert!(watched_file_action(true, FileChange::Changed, false, true) == WatchedFileAction::NotFound);
    assert!(watched_file_action(true, FileChange::Changed, true, true) == WatchedFileAction::Reload);
    assert!(watched_file_action(true, FileChange::Changed, true, false) == WatchedFileAction::Ignore);
    assert!(watched_file_action(true, FileChange::Deleted, true, false) == WatchedFileAction::Remove);
    assert!(watched_file_action(true, FileChange::Deleted, false, true) == WatchedFileAction::Ignore);
    assert!(watched_file_action(true, FileChange::Other, true, true) == WatchedFileAction::Ignore);
}

#[test]
fn file_database_outcomes() {
    assert!(add_file_outcome(true, None) == AddOutcome::AlreadyExists);
    assert!(add_file_outcome(false, None) == AddOutcome::Inserted);
    assert!(add_file_outcome(false, Some(true)) == AddOutcome::Inserted);
    assert!(add_file_outcome(false, Some(false)) == AddOutcome::Refused);
    assert!(remove_file_outcome(false, Some(true)) == RemoveOutcome::NotFound);
    assert!(remove_file_outcome(true, None) == RemoveOutcome::Removed);
    assert!(remove_file_outcome(true, Some(false)) == RemoveOutcome::Kept);
}

#[test]
fn parser_lookup() {
    let extensions = vec![("py".to_string(), "python".to_string()), ("htm".to_string(), "html".to_string())];
    let parsers = vec!["python".to_string()];
    assert_eq!(get_ast_parser(&extensions, &parsers, "py").ok(), Some("python".to_string()));
    assert_eq!(get_ast_parser(&extensions, &parsers, "python").ok(), Some("python".to_string()));
    match get_ast_parser(&extensions, &parsers, "rs") {
        Err(ExtensionError::UnknownExtension { extension }) => assert_eq!(extension, "rs"),
        _ => panic!("unknown extension"),
    }
    match get_ast_parser(&extensions, &parsers, "htm") {
        Err(ExtensionError::UnknownParser { extension }) => assert_eq!(extension, "html"),
        _ => panic!("unknown parser"),
    }
}

#[test]
fn parser_is_needed_only_to_read_a_file() {
    assert!(parser_needed(true, FileChange::Created, false));
    assert!(parser_needed(true, FileChange::Changed, true));
    assert!(!parser_needed(true, FileChange::Created, true));
    assert!(!parser_needed(true, FileChange::Changed, false));
    assert!(!parser_needed(true, FileChange::Deleted, true));
    assert!(!parser_needed(false, FileChange::Created, false));
}

#[test]
fn watched_run_stops_at_the_first_error() {
    assert!(matches!(after_watched_change::<&str>(0, 3, Ok(())), WatchedStep::Next(1)));
    assert!(matches!(after_watched_change::<&str>(1, 3, Err("unreadable")), WatchedStep::Stop("unreadable")));
    assert!(matches!(after_watched_change::<&str>(2, 3, Ok(())), WatchedStep::Finished));
}
