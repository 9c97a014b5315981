//! What the daemon answers: the JSON envelope and the replies built on it.

use vstd::prelude::*;
use crate::error::{status_of, NotifydError, NotifydErrorView};

verus! {

/// The envelope of every JSON answer.
#[derive(Debug)]
pub struct ProtoResponse {
    pub success: bool,
    pub reason: String,
    pub err: String,
}

/// What a `ProtoResponse` stands for.
pub struct ProtoResponseView {
    pub success: bool,
    pub reason: Seq<char>,
    pub err: Seq<char>,
}

impl View for ProtoResponse {
    type V = ProtoResponseView;

    open spec fn view(&self) -> ProtoResponseView {
        ProtoResponseView { success: self.success, reason: self.reason@, err: self.err@ }
    }
}

/// An answer to a request.
#[derive(Debug)]
pub enum Reply {
    /// A JSON envelope, sent with the given status.
    Json { status: u16, body: ProtoResponse },
    /// The bytes of the file at `path`, sent with status 200.
    File { content_type: String, path: String },
    /// Status 404 without a body.
    NotFound,
}

/// What a `Reply` stands for.
pub enum ReplyView {
    Json { status: u16, body: ProtoResponseView },
    File { content_type: Seq<char>, path: Seq<char> },
    NotFound,
}

impl View for Reply {
    type V = ReplyView;

    open spec fn view(&self) -> ReplyView {
        match self {
            Reply::Json { status, body } => ReplyView::Json { status: *status, body: body@ },
            Reply::File { content_type, path } => ReplyView::File {
                content_type: content_type@,
                path: path@,
            },
            Reply::NotFound => ReplyView::NotFound,
        }
    }
}

/// What could be learnt about a file that is asked for.
#[derive(Debug)]
pub enum FileStatus {
    /// It is a regular file and can be read.
    Regular,
    /// There is no regular file at the path.
    Missing,
    /// It is a regular file that cannot be opened, for the reason given.
    Unreadable(String),
}

/// What a `FileStatus` stands for.
pub enum FileStatusView {
    Regular,
    Missing,
    Unreadable(Seq<char>),
}

impl View for FileStatus {
    type V = FileStatusView;

    open spec fn view(&self) -> FileStatusView {
        match self {
            FileStatus::Regular => FileStatusView::Regular,
            FileStatus::Missing => FileStatusView::Missing,
            FileStatus::Unreadable(why) => FileStatusView::Unreadable(why@),
        }
    }
}

/// The answer that reports the failure `err` under the heading `reason`: the
/// error's diagnostic goes out unchanged, with the status of its class.
pub open spec fn error_reply(reason: Seq<char>, err: NotifydErrorView) -> ReplyView {
    ReplyView::Json {
        status: status_of(err.kind),
        body: ProtoResponseView { success: false, reason, err: err.message },
    }
}

/// The answer that reports success under the heading `reason`.
pub open spec fn success_reply(reason: Seq<char>) -> ReplyView {
    ReplyView::Json {
        status: 200,
        body: ProtoResponseView { success: true, reason, err: Seq::empty() },
    }
}

/// The answer that reports the failure `err` under the heading `reason`.
pub fn error_response(reason: &str, err: NotifydError) -> (reply: Reply)
    ensures
        reply@ == error_reply(reason@, err@),
{
    let status = err.status();
    Reply::Json {
        status,
        body: ProtoResponse { success: false, reason: reason.to_owned(), err: err.message },
    }
}

/// The answer that reports success under the heading `reason`.
pub fn success_response(reason: &str) -> (reply: Reply)
    ensures
        reply@ == success_reply(reason@),
{
    Reply::Json {
        status: 200,
        body: ProtoResponse { success: true, reason: reason.to_owned(), err: String::new() },
    }
}

} // verus!
