//! External programs: what is to be run, what running it gave, and the one
//! rule that turns the latter into success or failure.
//!
//! The library never starts a process. It says which program to run with
//! which arguments, and is told afterwards how the run ended.

use vstd::prelude::*;
use crate::error::{ErrorKind, NotifydError};

verus! {

/// A program and the arguments to start it with.
#[derive(Debug)]
pub struct Invocation {
    pub program: String,
    pub args: Vec<String>,
}

/// What an `Invocation` stands for.
pub struct InvocationView {
    pub program: Seq<char>,
    pub args: Seq<Seq<char>>,
}

impl View for Invocation {
    type V = InvocationView;

    open spec fn view(&self) -> InvocationView {
        InvocationView { program: self.program@, args: self.args.deep_view() }
    }
}

/// How a run ended: the program exited, with or without success, and wrote
/// `stderr`; or it could not be started, for the `reason` given.
#[derive(Debug)]
pub enum RunResult {
    Exited { success: bool, stderr: String },
    NotStarted { reason: String },
}

/// What a `RunResult` stands for.
pub enum RunResultView {
    Exited { success: bool, stderr: Seq<char> },
    NotStarted { reason: Seq<char> },
}

impl View for RunResult {
    type V = RunResultView;

    open spec fn view(&self) -> RunResultView {
        match self {
            RunResult::Exited { success, stderr } => RunResultView::Exited {
                success: *success,
                stderr: stderr@,
            },
            RunResult::NotStarted { reason } => RunResultView::NotStarted { reason: reason@ },
        }
    }
}

/// The diagnostic of a failed run; `None` for a run that succeeded. A run
/// fails if the program exits without success, and then the diagnostic is
/// what it wrote to standard error, or if it cannot be started.
pub open spec fn run_failure(result: RunResultView) -> Option<Seq<char>> {
    match result {
        RunResultView::Exited { success, stderr } => if success {
            None
        } else {
            Some(stderr)
        },
        RunResultView::NotStarted { reason } => Some(reason),
    }
}

/// The arguments `a`, `b`, `c` as a list.
pub fn args3(a: &str, b: &str, c: &str) -> (args: Vec<String>)
    ensures
        args.deep_view() == seq![a@, b@, c@],
{
    let mut args: Vec<String> = Vec::new();
    args.push(a.to_owned());
    args.push(b.to_owned());
    args.push(c.to_owned());
    assert(args.deep_view() =~= seq![a@, b@, c@]);
    args
}

/// `args` with `last` added at the end.
pub fn with_arg(args: Vec<String>, last: &str) -> (more: Vec<String>)
    ensures
        more.deep_view() == args.deep_view().push(last@),
{
    let mut more = args;
    more.push(last.to_owned());
    assert(more.deep_view() =~= args.deep_view().push(last@));
    more
}

/// Judges a run: a failed run becomes an error of class `kind` that carries
/// the run's diagnostic unchanged.
pub fn check_run(result: RunResult, kind: ErrorKind) -> (r: Result<(), NotifydError>)
    ensures
        match r {
            Ok(_) => run_failure(result@) is None,
            Err(e) => run_failure(result@) == Some(e@.message) && e@.kind == kind,
        },
{
    match result {
        RunResult::Exited { success, stderr } => {
            if success {
                Ok(())
            } else {
                Err(NotifydError { kind, message: stderr })
            }
        },
        RunResult::NotStarted { reason } => Err(NotifydError { kind, message: reason }),
    }
}

} // verus!
