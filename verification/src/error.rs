//! The error taxonomy of a run, the classification of filesystem failures
//! into it, and the one-line diagnostics shown to the user.

use vstd::prelude::*;
use vstd::string::StringExecFns;

verus! {

/// The shape of a filesystem failure as the operating system reports it,
/// reduced to the distinctions the pipeline acts on. The binary converts the
/// platform's error kind into this before handing an outcome back.
#[derive(Clone, Copy, Debug, PartialEq, Eq, Structural)]
pub enum FsErrorKind {
    /// No entry exists at the path.
    NotFound,
    /// The entry exists but may not be accessed.
    PermissionDenied,
    /// The entry is a directory, not a file readable as a byte stream.
    IsDirectory,
    /// Any other failure of the operation.
    Other,
}

/// Everything that can end a run early. Each failure is terminal: it is
/// reported once, with the offending input, and the process exits non-zero.
#[derive(Clone, Copy, Debug, PartialEq, Eq, Structural)]
pub enum RunError {
    /// No file path was supplied on the command line.
    MissingArgument,
    /// No filesystem entry exists at the supplied path.
    PathNotFound,
    /// Resolution of the supplied path failed for another reason
    /// (permission denied, a symlink cycle, an I/O fault).
    ResolutionIoError,
    /// The file vanished between resolution and the read.
    FileNotFound,
    /// The resolved file may not be read.
    PermissionDenied,
    /// The read failed for another reason.
    IoError,
    /// The resolved path names a directory or another entry that cannot be
    /// read as a byte stream.
    NotAFile,
}

/// How a failure during path resolution is named: an absent entry is
/// `PathNotFound`; everything else is a resolution I/O error.
pub open spec fn resolve_error_class(k: FsErrorKind) -> RunError {
    match k {
        FsErrorKind::NotFound => RunError::PathNotFound,
        FsErrorKind::PermissionDenied => RunError::ResolutionIoError,
        FsErrorKind::IsDirectory => RunError::ResolutionIoError,
        FsErrorKind::Other => RunError::ResolutionIoError,
    }
}

/// Classifies a failure of path resolution.
pub fn classify_resolve_error(k: FsErrorKind) -> (r: RunError)
    ensures
        r == resolve_error_class(k),
{
    match k {
        FsErrorKind::NotFound => RunError::PathNotFound,
        _ => RunError::ResolutionIoError,
    }
}

/// How a failure of the whole-file read is named. Each kind keeps its own
/// name: the diagnostics must distinguish them, not collapse them.
pub open spec fn read_error_class(k: FsErrorKind) -> RunError {
    match k {
        FsErrorKind::NotFound => RunError::FileNotFound,
        FsErrorKind::PermissionDenied => RunError::PermissionDenied,
        FsErrorKind::IsDirectory => RunError::NotAFile,
        FsErrorKind::Other => RunError::IoError,
    }
}

/// Classifies a failure of the whole-file read.
pub fn classify_read_error(k: FsErrorKind) -> (r: RunError)
    ensures
        r == read_error_class(k),
{
    match k {
        FsErrorKind::NotFound => RunError::FileNotFound,
        FsErrorKind::PermissionDenied => RunError::PermissionDenied,
        FsErrorKind::IsDirectory => RunError::NotAFile,
        FsErrorKind::Other => RunError::IoError,
    }
}

/// The name under which each failure is reported.
pub open spec fn error_label(e: RunError) -> Seq<char> {
    match e {
        RunError::MissingArgument => "missing argument"@,
        RunError::PathNotFound => "path not found"@,
        RunError::ResolutionIoError => "path resolution failed"@,
        RunError::FileNotFound => "file not found"@,
        RunError::PermissionDenied => "permission denied"@,
        RunError::IoError => "read failed"@,
        RunError::NotAFile => "not a file"@,
    }
}

/// The printable name of a failure.
pub fn label_of(e: RunError) -> (r: &'static str)
    ensures
        r@ == error_label(e),
{
    match e {
        RunError::MissingArgument => "missing argument",
        RunError::PathNotFound => "path not found",
        RunError::ResolutionIoError => "path resolution failed",
        RunError::FileNotFound => "file not found",
        RunError::PermissionDenied => "permission denied",
        RunError::IoError => "read failed",
        RunError::NotAFile => "not a file",
    }
}

/// The single-line diagnostic for a failed run: the failure's name, a
/// separator, then the offending input.
pub fn diagnostic_line(e: RunError, input: &str) -> (r: String)
    ensures
        r@ == error_label(e) + ": "@ + input@,
{
    let mut line = String::from_str(label_of(e));
    line.append(": ");
    line.append(input);
    line
}

} // verus!
