//! The daemon's settings, and what follows from them alone: where a static
//! request points, and under which URL a generated file can be fetched.

use vstd::prelude::*;
use crate::artifact::{is_plain_name, join_scratch, scratch_path, TtsSentence};
use crate::numerals::{decimal, push_decimal};
use crate::text::{after_last, begins_with, chars_of, str_eq, string_of};
use crate::tts::{TTSView, TTS};
use crate::web::{
    error_reply,
    error_response,
    FileStatus,
    FileStatusView,
    Reply,
    ReplyView,
};
use crate::error::{ErrorKind, NotifydError, NotifydErrorView};

verus! {

/// How sentences are played on the local speaker.
#[derive(Clone, Copy, Debug, PartialEq, Eq, Structural)]
pub enum PlaybackStrategy {
    /// Through the audio device, inside the process.
    Native,
    /// Through an external player program.
    External,
}

/// The daemon's settings. They are fixed when the daemon starts and are only
/// read afterwards.
#[derive(Debug)]
pub struct Notifyd {
    /// Port the daemon listens on.
    pub port: u32,
    /// Device that `/notify` casts to, or the local-speaker sentinel.
    pub target_uuid: String,
    pub tts: TTS,
    pub player: PlaybackStrategy,
}

/// What a `Notifyd` stands for.
pub struct NotifydView {
    pub port: u32,
    pub target_uuid: Seq<char>,
    pub tts: TTSView,
    pub player: PlaybackStrategy,
}

impl View for Notifyd {
    type V = NotifydView;

    open spec fn view(&self) -> NotifydView {
        NotifydView {
            port: self.port,
            target_uuid: self.target_uuid@,
            tts: self.tts@,
            player: self.player,
        }
    }
}

/// The target that stands for "play on the local speaker".
pub open spec fn local_speaker() -> Seq<char> {
    "Use Local Speaker"@
}

/// The prefix of the URLs under which generated files are served.
pub open spec fn static_prefix() -> Seq<char> {
    "/static/"@
}

/// The file a static request points at: the plain name behind the prefix,
/// in the scratch directory `tmpdir`. A URL without the prefix, or with
/// anything but a plain name behind it, points at nothing.
pub open spec fn static_target(tmpdir: Seq<char>, url: Seq<char>) -> Option<Seq<char>> {
    let name = url.skip(static_prefix().len() as int);
    if static_prefix().is_prefix_of(url) && is_plain_name(name) {
        Some(scratch_path(tmpdir, name))
    } else {
        None
    }
}

/// The URL under which the file at `path` is served to a device that reaches
/// this daemon at `address`.
pub open spec fn static_url(address: Seq<char>, port: u32, path: Seq<char>) -> Seq<char> {
    "http://"@ + address + ":"@ + decimal(port as nat) + static_prefix() + after_last(path, '/')
}

/// The answer to a static request for the file at `path`, given what was
/// learnt about that file.
pub open spec fn static_reply(path: Seq<char>, status: FileStatusView) -> ReplyView {
    match status {
        FileStatusView::Regular => ReplyView::File { content_type: "audio/wav"@, path },
        FileStatusView::Missing => ReplyView::NotFound,
        FileStatusView::Unreadable(why) => error_reply(
            "Sending static file "@ + path,
            NotifydErrorView { kind: ErrorKind::NotFound, message: why },
        ),
    }
}

/// Whether `name` is a plain file name.
pub fn plain_name(name: &Vec<char>) -> (plain: bool)
    ensures
        plain == is_plain_name(name@),
{
    if name.len() == 0 {
        return false;
    }
    if name.len() == 1 && name[0] == '.' {
        assert(name@ =~= seq!['.']);
        return false;
    }
    if name.len() == 2 && name[0] == '.' && name[1] == '.' {
        assert(name@ =~= seq!['.', '.']);
        return false;
    }
    let mut i: usize = 0;
    while i < name.len()
        invariant
            i <= name.len(),
            forall|j: int| 0 <= j < i ==> name@[j] != '/',
        decreases name.len() - i,
    {
        if name[i] == '/' {
            return false;
        }
        i += 1;
    }
    assert(name@ != seq!['.']) by {
        if name@ == seq!['.'] {
            assert(name@.len() == 1 && name@[0] == '.');
        }
    }
    assert(name@ != seq!['.', '.']) by {
        if name@ == seq!['.', '.'] {
            assert(name@.len() == 2 && name@[0] == '.' && name@[1] == '.');
        }
    }
    true
}

impl Notifyd {
    /// The settings of a daemon that listens on `port`, notifies
    /// `target_uuid`, synthesizes with `tts` and plays in the way `player`.
    pub fn new(port: u32, target_uuid: String, tts: TTS, player: PlaybackStrategy) -> (daemon:
        Notifyd)
        ensures
            daemon@ == (NotifydView { port, target_uuid: target_uuid@, tts: tts@, player }),
    {
        Notifyd { port, target_uuid, tts, player }
    }

    /// Whether `/notify` plays on the local speaker.
    pub fn notifies_locally(&self) -> (local: bool)
        ensures
            local == (self@.target_uuid == local_speaker()),
    {
        str_eq(self.target_uuid.as_str(), "Use Local Speaker")
    }

    /// The file that the static request `url` points at, if any. It always
    /// lies directly in the scratch directory.
    pub fn handle_static_req(&self, url: &str) -> (target: Option<String>)
        ensures
            target.deep_view() == static_target(self@.tts.tmpdir, url@),
    {
        let chars = chars_of(url);
        proof {
            reveal_strlit("/static/");
        }
        if !begins_with(&chars, "/static/") {
            return None;
        }
        let name = string_of(&chars, 8, chars.len());
        assert(name@ =~= url@.skip(8));
        if !plain_name(&chars_of(name.as_str())) {
            return None;
        }
        Some(join_scratch(self.tts.tmpdir.as_str(), name.as_str()))
    }

    /// The answer to a static request for the file at `path`.
    pub fn static_response(path: String, status: FileStatus) -> (reply: Reply)
        ensures
            reply@ == static_reply(path@, status@),
    {
        match status {
            FileStatus::Regular => Reply::File { content_type: "audio/wav".to_owned(), path },
            FileStatus::Missing => Reply::NotFound,
            FileStatus::Unreadable(why) => {
                let mut reason = "Sending static file ".to_owned();
                reason.append(path.as_str());
                error_response(
                    reason.as_str(),
                    NotifydError { kind: ErrorKind::NotFound, message: why },
                )
            },
        }
    }

    /// The URL under which a device that reaches this daemon at `address`
    /// can fetch the file of `sentence`.
    pub fn sentence_static_url(&self, sentence: &TtsSentence, address: &str) -> (url: String)
        ensures
            url@ == static_url(address@, self@.port, sentence@.path),
    {
        let mut url = "http://".to_owned();
        url.append(address);
        url.append(":");
        push_decimal(&mut url, self.port as u128);
        url.append("/static/");
        url.append(sentence.file_name().as_str());
        url
    }
}

} // verus!
