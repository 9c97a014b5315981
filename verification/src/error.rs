//! The daemon's one error type and the classes its errors fall into.

use vstd::prelude::*;

verus! {

/// The class of a failure. `NotFound` is answered with status 404, every
/// other class that reaches a client with status 400.
#[derive(Clone, Copy, Debug, PartialEq, Eq, Structural)]
pub enum ErrorKind {
    /// No synthesis engine, or no casting tool, could be located.
    StartupFatal,
    /// The synthesis engine did not run or exited with a failure.
    SynthesisFailure,
    /// Local playback failed.
    PlaybackFailure,
    /// The casting tool did not run or exited with a failure.
    CastFailure,
    /// The request body is missing, malformed or incomplete.
    BadRequest,
    /// Unknown route, or a static file that cannot be served.
    NotFound,
}

/// An error: its class and the diagnostic text that goes with it.
#[derive(Debug)]
pub struct NotifydError {
    pub kind: ErrorKind,
    pub message: String,
}

/// What a `NotifydError` stands for.
pub struct NotifydErrorView {
    pub kind: ErrorKind,
    pub message: Seq<char>,
}

impl View for NotifydError {
    type V = NotifydErrorView;

    open spec fn view(&self) -> NotifydErrorView {
        NotifydErrorView { kind: self.kind, message: self.message@ }
    }
}

/// The HTTP status that answers an error of class `kind`.
pub open spec fn status_of(kind: ErrorKind) -> u16 {
    if kind == ErrorKind::NotFound {
        404
    } else {
        400
    }
}

impl NotifydError {
    /// An error of class `kind` that says `desc`.
    pub fn new(kind: ErrorKind, desc: &str) -> (e: NotifydError)
        ensures
            e@ == (NotifydErrorView { kind, message: desc@ }),
    {
        NotifydError { kind, message: desc.to_owned() }
    }

    /// The diagnostic text, as a string of its own.
    pub fn message(&self) -> (text: String)
        ensures
            text@ == self@.message,
    {
        self.message.clone()
    }

    /// The HTTP status that answers this error.
    pub fn status(&self) -> (code: u16)
        ensures
            code == status_of(self@.kind),
    {
        match self.kind {
            ErrorKind::NotFound => 404,
            _ => 400,
        }
    }
}

} // verus!
