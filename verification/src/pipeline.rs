//! The run as a state machine: what the tool does next after each outcome.
//!
//! The binary owns the filesystem; this module owns every decision. The
//! machine starts in [`Step::Start`], receives the invocation's arguments,
//! and answers with an [`Action`]. The binary performs the action, hands the
//! outcome back as the next [`Event`], and so on until the action is a report
//! or a failure, both terminal.

use vstd::prelude::*;
use crate::error::{FsErrorKind, RunError, resolve_error_class, read_error_class};

verus! {

/// What has happened outside: the invocation's arguments, or the outcome of
/// a piece of filesystem work the machine asked for.
pub enum Event {
    /// The process's raw argument list; index 0 is the program's own path.
    Args { args: Vec<String> },
    /// The outcome of resolving the candidate path: the canonical absolute
    /// path, or the kind of failure.
    Resolved { outcome: Result<String, FsErrorKind> },
    /// The outcome of reading the resolved file whole: its bytes, or the
    /// kind of failure.
    ReadDone { outcome: Result<Vec<u8>, FsErrorKind> },
}

/// What the binary is to do next. `Resolve` and `Read` ask for filesystem
/// work; `Report` and `Fail` end the run.
pub enum Action {
    /// Resolve this user-supplied path to a canonical absolute path.
    Resolve { path: String },
    /// Read the file at this resolved path whole.
    Read { path: String },
    /// Print the resolved path and the bytes read, and exit zero.
    Report { resolved: String, bytes: Vec<u8> },
    /// Print the diagnostic for this error and the offending input, and
    /// exit non-zero.
    Fail { error: RunError, offending: String },
}

/// Where the run stands. `Reported` and `Failed` are terminal: no event
/// fits them, so a finished run asks for nothing further.
pub enum Step {
    /// Nothing has happened yet; the next event is the argument list.
    Start,
    /// Resolution of this candidate path is under way.
    AwaitResolve { candidate: String },
    /// The whole-file read of this resolved path is under way.
    AwaitRead { resolved: String },
    /// The run succeeded and was reported.
    Reported,
    /// The run failed with this error.
    Failed { error: RunError },
}

/// Which events a state can receive. Terminal states receive none.
pub open spec fn event_fits(s: Step, e: Event) -> bool {
    match (s, e) {
        (Step::Start, Event::Args { .. }) => true,
        (Step::AwaitResolve { .. }, Event::Resolved { .. }) => true,
        (Step::AwaitRead { .. }, Event::ReadDone { .. }) => true,
        _ => false,
    }
}

/// The machine's whole behaviour: the state and action that follow a state
/// and a fitting event.
pub open spec fn step_rel(pre: Step, e: Event, post: Step, a: Action) -> bool {
    match (pre, e) {
        (Step::Start, Event::Args { args }) => {
            if args@.len() < 2 {
                post == (Step::Failed { error: RunError::MissingArgument })
                && (a matches Action::Fail { error, offending }
                    && error == RunError::MissingArgument
                    && offending@ == Seq::<char>::empty())
            } else {
                (post matches Step::AwaitResolve { candidate } && candidate@ == args@[1]@)
                && (a matches Action::Resolve { path } && path@ == args@[1]@)
            }
        }
        (Step::AwaitResolve { candidate }, Event::Resolved { outcome }) => {
            match outcome {
                Ok(p) => {
                    (post matches Step::AwaitRead { resolved } && resolved@ == p@)
                    && (a matches Action::Read { path } && path@ == p@)
                }
                Err(k) => {
                    post == (Step::Failed { error: resolve_error_class(k) })
                    && (a matches Action::Fail { error, offending }
                        && error == resolve_error_class(k)
                        && offending@ == candidate@)
                }
            }
        }
        (Step::AwaitRead { resolved }, Event::ReadDone { outcome }) => {
            match outcome {
                Ok(bytes) => {
                    post == Step::Reported
                    && (a matches Action::Report { resolved: rp, bytes: bs }
                        && rp@ == resolved@
                        && bs@ == bytes@)
                }
                Err(k) => {
                    post == (Step::Failed { error: read_error_class(k) })
                    && (a matches Action::Fail { error, offending }
                        && error == read_error_class(k)
                        && offending@ == resolved@)
                }
            }
        }
        _ => false,
    }
}

impl Step {
    /// Whether this state can receive the event. The binary may test this
    /// before calling [`Step::next`].
    pub fn accepts(&self, event: &Event) -> (r: bool)
        ensures
            r == event_fits(*self, *event),
    {
        match (self, event) {
            (Step::Start, Event::Args { .. }) => true,
            (Step::AwaitResolve { .. }, Event::Resolved { .. }) => true,
            (Step::AwaitRead { .. }, Event::ReadDone { .. }) => true,
            _ => false,
        }
    }

    /// One step of the run: consumes the state and a fitting event, and
    /// returns the next state and the action to perform.
    pub fn next(self, event: Event) -> (r: (Step, Action))
        requires
            event_fits(self, event),
        ensures
            step_rel(self, event, r.0, r.1),
    {
        match (self, event) {
            (Step::Start, Event::Args { args }) => {
                if args.len() < 2 {
                    (
                        Step::Failed { error: RunError::MissingArgument },
                        Action::Fail {
                            error: RunError::MissingArgument,
                            offending: String::new(),
                        },
                    )
                } else {
                    let candidate = args[1].clone();
                    let path = candidate.clone();
                    (Step::AwaitResolve { candidate }, Action::Resolve { path })
                }
            }
            (Step::AwaitResolve { candidate }, Event::Resolved { outcome }) => {
                match outcome {
                    Ok(p) => {
                        let path = p.clone();
                        (Step::AwaitRead { resolved: p }, Action::Read { path })
                    }
                    Err(k) => {
                        let error = crate::error::classify_resolve_error(k);
                        (
                            Step::Failed { error },
                            Action::Fail { error, offending: candidate },
                        )
                    }
                }
            }
            (Step::AwaitRead { resolved }, Event::ReadDone { outcome }) => {
                match outcome {
                    Ok(bytes) => (Step::Reported, Action::Report { resolved, bytes }),
                    Err(k) => {
                        let error = crate::error::classify_read_error(k);
                        (
                            Step::Failed { error },
                            Action::Fail { error, offending: resolved },
                        )
                    }
                }
            }
            _ => vstd::pervasive::unreached(),
        }
    }
}

/// An invocation with no user argument fails at once with `MissingArgument`:
/// the action is a failure, never a request for filesystem work, and the
/// machine halts.
pub proof fn lemma_missing_argument_halts(pre: Step, e: Event, post: Step, a: Action)
    requires
        pre is Start,
        e matches Event::Args { args } && args@.len() < 2,
        step_rel(pre, e, post, a),
    ensures
        a matches Action::Fail { error, .. } && error == RunError::MissingArgument,
        !(a is Resolve),
        !(a is Read),
        post is Failed,
{
}

/// `Reported` and `Failed` are terminal: no event fits them, so a finished
/// run asks for no further filesystem work.
pub proof fn lemma_terminal_states(s: Step, e: Event)
    requires
        s is Reported || s is Failed,
    ensures
        !event_fits(s, e),
{
}

/// A path that resolution reports absent fails the run with `PathNotFound`,
/// and no read is ever requested.
pub proof fn lemma_path_not_found_skips_read(pre: Step, e: Event, post: Step, a: Action)
    requires
        pre is AwaitResolve,
        e matches Event::Resolved { outcome } && outcome matches Err(k)
            && k == FsErrorKind::NotFound,
        step_rel(pre, e, post, a),
    ensures
        a matches Action::Fail { error, .. } && error == RunError::PathNotFound,
        !(a is Read),
        post is Failed,
{
}

/// A successful read is reported exactly: the reported bytes are the bytes
/// the read produced, byte for byte, and the reported path is the resolved
/// path.
pub proof fn lemma_report_round_trip(pre: Step, e: Event, post: Step, a: Action)
    requires
        pre is AwaitRead,
        e matches Event::ReadDone { outcome } && outcome is Ok,
        step_rel(pre, e, post, a),
    ensures
        post is Reported,
        a is Report,
        e matches Event::ReadDone { outcome } && outcome matches Ok(bytes)
            ==> a matches Action::Report { resolved: rp, bytes: bs }
                && bs@ == bytes@
                && rp@ == pre->resolved@,
{
}

/// Reading a directory fails the run with `NotAFile`, a handled failure,
/// never a crash of the machine.
pub proof fn lemma_directory_is_not_a_file(pre: Step, e: Event, post: Step, a: Action)
    requires
        pre is AwaitRead,
        e matches Event::ReadDone { outcome } && outcome matches Err(k)
            && k == FsErrorKind::IsDirectory,
        step_rel(pre, e, post, a),
    ensures
        a matches Action::Fail { error, .. } && error == RunError::NotAFile,
        post is Failed,
{
}

/// Whatever canonical path resolution produces — for a relative path or for
/// a symlink alike — is the path the machine reads and later reports,
/// character for character.
pub proof fn lemma_resolved_path_is_kept(pre: Step, e: Event, post: Step, a: Action)
    requires
        pre is AwaitResolve,
        e matches Event::Resolved { outcome } && outcome is Ok,
        step_rel(pre, e, post, a),
    ensures
        e matches Event::Resolved { outcome } && outcome matches Ok(p)
            ==> a matches Action::Read { path } && path@ == p@,
        e matches Event::Resolved { outcome } && outcome matches Ok(p)
            ==> post matches Step::AwaitRead { resolved } && resolved@ == p@,
{
}

/// The process's exit code once the run has ended: zero exactly on a
/// successful report, one on any failure.
pub fn exit_code(action: &Action) -> (r: i32)
    requires
        action is Report || action is Fail,
    ensures
        (r == 0) <==> (action is Report),
        (action is Fail) ==> r == 1,
{
    match action {
        Action::Report { .. } => 0,
        _ => 1,
    }
}

} // verus!
