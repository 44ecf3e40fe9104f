//! Terminal result of one administrative action, and the mapping from a
//! child process's exit report to that result.

use vstd::prelude::*;

verus! {

/// What one action request ended in.  Exactly one `Outcome` is produced
/// per request.
pub enum Outcome {
    /// The action completed.
    Success,
    /// The requested dump file does not exist; detected before any
    /// process is spawned.  Carries the offending path.
    PathNotFound(String),
    /// The external tool (or the container runtime client) could not be
    /// started.  Carries the error text.
    SpawnFailure(String),
    /// A read or write on a pipe or file failed mid-transfer.  Carries
    /// the error text.
    IoFailure(String),
    /// The child process exited with a non-zero status.  Carries the
    /// status code, when the platform reported one.
    CommandFailed(Option<i32>),
}

/// What waiting on a child process reported.
pub enum ExitEvent {
    /// The child exited; `success` is whether the status was zero, and
    /// `code` the status code when one was available.
    Exited { success: bool, code: Option<i32> },
    /// The wait itself failed (for example, a process-table error).
    /// Carries the error text.
    WaitFailed(String),
}

/// Classifies a child's exit report.  A zero status is the only report
/// that yields `Success`: a non-zero status always surfaces as
/// `CommandFailed` carrying the status code, never as a silent success.
pub fn exit_outcome(ev: ExitEvent) -> (o: Outcome)
    ensures
        (ev matches ExitEvent::Exited { success: true, .. }) <==> (o matches Outcome::Success),
        ev matches ExitEvent::Exited { success: false, code } ==> (o matches
            Outcome::CommandFailed(c) && c == code),
        ev matches ExitEvent::WaitFailed(m) ==> (o matches Outcome::IoFailure(t) && t@ == m@),
{
    match ev {
        ExitEvent::Exited { success, code } => {
            if success {
                Outcome::Success
            } else {
                Outcome::CommandFailed(code)
            }
        },
        ExitEvent::WaitFailed(m) => Outcome::IoFailure(m),
    }
}

} // verus!
