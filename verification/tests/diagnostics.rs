use filedump::error::{
    classify_read_error, classify_resolve_error, diagnostic_line, label_of, FsErrorKind, RunError,
};

#[test]
fn resolve_failures_are_classified() {
    assert_eq!(
        classify_resolve_error(FsErrorKind::NotFound),
        RunError::PathNotFound
    );
    assert_eq!(
        classify_resolve_error(FsErrorKind::PermissionDenied),
        RunError::ResolutionIoError
    );
    assert_eq!(
        classify_resolve_error(FsErrorKind::IsDirectory),
        RunError::ResolutionIoError
    );
    assert_eq!(
        classify_resolve_error(FsErrorKind::Other),
        RunError::ResolutionIoError
    );
}

#[test]
fn read_failures_keep_their_own_names() {
    assert_eq!(
        classify_read_error(FsErrorKind::NotFound),
        RunError::FileNotFound
    );
    assert_eq!(
        classify_read_error(FsErrorKind::PermissionDenied),
        RunError::PermissionDenied
    );
    assert_eq!(classify_read_error(FsErrorKind::IsDirectory), RunError::NotAFile);
    assert_eq!(classify_read_error(FsErrorKind::Other), RunError::IoError);
}

#[test]
fn every_failure_has_its_own_label() {
    let labels = [
        label_of(RunError::MissingArgument),
        label_of(RunError::PathNotFound),
        label_of(RunError::ResolutionIoError),
        label_of(RunError::FileNotFound),
        label_of(RunError::PermissionDenied),
        label_of(RunError::IoError),
        label_of(RunError::NotAFile),
    ];
    for (i, a) in labels.iter().enumerate() {
        for b in labels.iter().skip(i + 1) {
            assert_ne!(a, b);
        }
    }
}

#[test]
fn diagnostic_names_the_failure_and_the_input() {
    assert_eq!(
        diagnostic_line(RunError::MissingArgument, ""),
        "missing argument: "
    );
    assert_eq!(
        diagnostic_line(RunError::PathNotFound, "./nope.bin"),
        "path not found: ./nope.bin"
    );
    assert_eq!(
        diagnostic_line(RunError::NotAFile, "/tmp"),
        "not a file: /tmp"
    );
    assert_eq!(
        diagnostic_line(RunError::PermissionDenied, "/root/secret"),
        "permission denied: /root/secret"
    );
}
