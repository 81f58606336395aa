use catr::{source_kind, OpenError, SourceKind};

#[test]
fn dash_names_standard_input() {
    assert_eq!(source_kind("-"), SourceKind::StandardInput);
}

#[test]
fn other_names_are_files() {
    assert_eq!(source_kind("missing.txt"), SourceKind::File);
    assert_eq!(source_kind("--"), SourceKind::File);
    assert_eq!(source_kind("-a"), SourceKind::File);
    assert_eq!(source_kind(""), SourceKind::File);
    assert_eq!(source_kind("–"), SourceKind::File);
    assert_eq!(source_kind("./-"), SourceKind::File);
}

#[test]
fn open_error_message_names_source_and_reason() {
    let error = OpenError {
        name: "missing.txt".to_string(),
        reason: "No such file or directory (os error 2)".to_string(),
    };
    assert_eq!(
        error.message(),
        "Failed to open missing.txt: No such file or directory (os error 2)"
    );
}

#[test]
fn open_error_message_with_empty_parts() {
    let error = OpenError { name: String::new(), reason: String::new() };
    assert_eq!(error.message(), "Failed to open : ");
}
