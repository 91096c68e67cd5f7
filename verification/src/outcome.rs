//! Results of version-control operations and their classification.
//!
//! Every operation the tool issues is a synchronous external process. Its
//! result is either an exit code or an abnormal termination (no exit code at
//! all, e.g. death by signal). An absent exit code is kept as a distinct
//! variant and never coerced to success or failure silently.

use vstd::prelude::*;

verus! {

/// The observable result of one external version-control operation.
#[derive(Debug, Clone, Copy)]
pub enum ExecOutcome {
    /// The process ran to completion and returned this exit code.
    Exited(i32),
    /// The process terminated without an exit code (e.g. killed by a signal).
    Abnormal,
}

/// Error conditions the library reports to its caller.
#[derive(Debug, Clone, Copy)]
pub enum ErrorKind {
    /// A generic failure with a message, as raised by `error`.
    Other,
}

/// An error of the library: a kind together with a human-readable message.
#[derive(Debug)]
pub struct Error {
    pub kind: ErrorKind,
    pub message: String,
}

/// Exit code that a paged diff reports when its output pipe closes early.
/// For stash inspection it means "the stash exists and was inspectable".
pub const PIPE_CLOSED_CODE: i32 = 141;

/// Builds a generic error carrying `message`.
pub fn error(message: &str) -> (e: Error)
    ensures
        e.kind == ErrorKind::Other,
        e.message@ == message@,
{
    Error { kind: ErrorKind::Other, message: message.to_owned() }
}

/// How a stash-inspection result is read: exit code zero and the
/// closed-pipe code both mean the stash exists; any other exit code means
/// there is no stash at that position.
pub open spec fn spec_stash_exists(code: i32) -> bool {
    code == 0 || code == PIPE_CLOSED_CODE
}

/// Classifies the result of inspecting the stash at some position.
///
/// Exit code 0 or the closed-pipe code mean the stash exists; any other
/// exit code means the end of the stash list; an abnormal termination is a
/// distinct, fatal error.
pub fn classify_stash_show(outcome: &ExecOutcome) -> (r: Result<bool, Error>)
    ensures
        match *outcome {
            ExecOutcome::Exited(code) => r == Result::<bool, Error>::Ok(spec_stash_exists(code)),
            ExecOutcome::Abnormal => r is Err,
        },
{
    match *outcome {
        ExecOutcome::Exited(code) => Ok(code == 0 || code == PIPE_CLOSED_CODE),
        ExecOutcome::Abnormal => Err(error("terminated by signal")),
    }
}

/// The closed-pipe exit code is classified exactly like exit code zero:
/// both mean the stash exists.
pub proof fn lemma_pipe_closed_counts_as_success()
    ensures
        spec_stash_exists(PIPE_CLOSED_CODE) == spec_stash_exists(0),
{
}

/// Classifies the existence check of the stash ref: the check succeeds
/// (exit code zero) exactly when at least one stash exists, so the stack is
/// empty when it fails. An abnormal termination is a distinct, fatal error.
pub fn git_stashes_is_empty(outcome: &ExecOutcome) -> (r: Result<bool, Error>)
    ensures
        match *outcome {
            ExecOutcome::Exited(code) => r == Result::<bool, Error>::Ok(code != 0),
            ExecOutcome::Abnormal => r is Err,
        },
{
    match *outcome {
        ExecOutcome::Exited(code) => Ok(code != 0),
        ExecOutcome::Abnormal => Err(error("terminated by signal")),
    }
}

/// The working tree has uncommitted local modifications exactly when the
/// status report is non-empty. Computed once at session start; a `true`
/// disables branch promotion for the whole session.
pub fn has_local_changes(status_report: &Vec<u8>) -> (b: bool)
    ensures
        b == (status_report@.len() > 0),
{
    status_report.len() > 0
}

/// Whether a stash "looks applied" to the working tree, read from the
/// result of the external capability that answers it: only exit code zero
/// means "applied". A failing exit code — including the one of a host where
/// the capability is unsupported — means "not applied", so the drop will ask
/// for confirmation. An abnormal termination is a distinct, fatal error.
pub fn classify_looks_applied(outcome: &ExecOutcome) -> (r: Result<bool, Error>)
    ensures
        match *outcome {
            ExecOutcome::Exited(code) => r == Result::<bool, Error>::Ok(code == 0),
            ExecOutcome::Abnormal => r is Err,
        },
{
    match *outcome {
        ExecOutcome::Exited(code) => Ok(code == 0),
        ExecOutcome::Abnormal => Err(error("terminated by signal")),
    }
}

} // verus!
