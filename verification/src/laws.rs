//! What holds of every request, whatever the caller reports.

use vstd::prelude::*;
use crate::artifact::{
    artifact_name,
    hash_input,
    is_plain_name,
    lemma_artifact_name_injective,
    lemma_artifact_name_is_plain,
    lemma_hash_input_differs,
    lemma_scratch_path_file_name,
    md5_digest,
    scratch_path,
};
use crate::caster::stop_command;
use crate::command::{run_failure, RunResultView};
use crate::engine::{
    candidates_of,
    first_found,
    lemma_first_found_bounds,
    locale_of,
    looked_at,
    resolution,
    TTSEngine,
};
use crate::notifyd::{local_speaker, static_prefix, static_target, NotifydView};
use crate::protocol::{ActionView, Endpoint, EventView, NotifyRequestView, PhaseView};
use crate::router::next;
use crate::text::{after_last, before_first, lemma_first_index_bounds};
use crate::tts::{synthesis_of, TTSView};
use crate::web::{ProtoResponseView, ReplyView};

verus! {

/// The generated file that is held for a request in `phase`, if any.
pub open spec fn held_file(phase: PhaseView) -> Option<Seq<char>> {
    match phase {
        PhaseView::Playing { sentence } => Some(sentence.path),
        PhaseView::LocatingPlayer { sentence } => Some(sentence.path),
        PhaseView::RunningPlayer { sentence } => Some(sentence.path),
        PhaseView::Addressing { sentence, uid } => Some(sentence.path),
        PhaseView::LocatingCaster { sentence, uid, url } => Some(sentence.path),
        PhaseView::Casting { sentence, caster } => Some(sentence.path),
        PhaseView::Stopping { sentence, reply } => Some(sentence.path),
        _ => None,
    }
}

/// An upper bound on the number of reports a request in `phase` still takes
/// before it is answered.
pub open spec fn steps_left(phase: PhaseView) -> nat {
    match phase {
        PhaseView::Received { endpoint } => 9,
        PhaseView::Validated { text, target } => 8,
        PhaseView::Synthesizing { job, target } => 7,
        PhaseView::Addressing { sentence, uid } => 6,
        PhaseView::LocatingCaster { sentence, uid, url } => 5,
        PhaseView::Casting { sentence, caster } => 4,
        PhaseView::LocatingPlayer { sentence } => 4,
        PhaseView::RunningPlayer { sentence } => 3,
        PhaseView::Playing { sentence } => 3,
        PhaseView::Stopping { sentence, reply } => 2,
        PhaseView::Releasing { reply } => 1,
        PhaseView::Probing { path } => 1,
        PhaseView::Responded => 0,
    }
}

/// A request body with its device set to `uid`.
pub open spec fn for_device(body: Result<NotifyRequestView, Seq<char>>, uid: Seq<char>) -> Result<
    NotifyRequestView,
    Seq<char>,
> {
    match body {
        Ok(request) => Ok(NotifyRequestView { text: request.text, uid: Some(uid) }),
        Err(why) => Err(why),
    }
}

/// Every request is answered: each report brings a request that is not yet
/// answered closer to its answer, the answer goes out exactly when the last
/// phase is reached, and no step but the first can be the one that reads the
/// body.
pub proof fn lemma_every_request_is_answered(cfg: NotifydView, phase: PhaseView, event: EventView)
    ensures
        phase !is Responded ==> steps_left(next(cfg, phase, event).0) < steps_left(phase),
        next(cfg, phase, event).1 is Reply <==> phase !is Responded && next(
            cfg,
            phase,
            event,
        ).0 is Responded,
        phase is Responded ==> next(cfg, phase, event) == (
            PhaseView::Responded,
            ActionView::Idle,
        ),
        next(cfg, phase, event).1 !is ReadBody,
{
}

/// A generated file is removed on every path, and before the answer: while a
/// file is held, a step either keeps holding it and neither answers nor
/// removes anything, or gives it up by removing exactly that file. Nothing
/// is removed that is not held, and a file comes to be held only when the
/// engine's run has succeeded.
pub proof fn lemma_file_is_released(cfg: NotifydView, phase: PhaseView, event: EventView)
    ensures
        held_file(phase) matches Some(path) ==> {
            let (after, action) = next(cfg, phase, event);
            ||| held_file(after) == Some(path) && action !is Reply && action !is Remove
            ||| held_file(after) is None && action == (ActionView::Remove { path })
        },
        held_file(phase) is None ==> next(cfg, phase, event).1 !is Remove,
        held_file(phase) is None && held_file(next(cfg, phase, event).0) is Some ==> {
            &&& phase matches PhaseView::Synthesizing { job, target }
            &&& event matches EventView::Ran(result)
            &&& run_failure(result) is None
            &&& held_file(next(cfg, phase, event).0) == Some(job.outpath)
        },
        next(cfg, phase, event).1 is Reply ==> held_file(phase) is None,
{
}

/// A cast is always followed by a stop: whatever is reported while the
/// device is loading, the next thing done is to tell that device to stop.
pub proof fn lemma_cast_is_stopped(cfg: NotifydView, phase: PhaseView, event: EventView)
    ensures
        phase matches PhaseView::Casting { sentence, caster } ==> {
            let (after, action) = next(cfg, phase, event);
            &&& after matches PhaseView::Stopping { sentence: s, reply }
            &&& s == sentence
            &&& action == ActionView::Run(stop_command(caster.target_uid))
        },
        next(cfg, phase, event).0 is Stopping ==> phase is Casting,
{
}

/// A failed cast is reported with the tool's diagnostic unchanged: when the
/// casting tool fails with `diagnostic`, the request is answered, after the
/// stop and the removal, with status 400, the reason "Failed to cast
/// content" and `diagnostic` as the error, whatever the stop and the removal
/// report.
pub proof fn lemma_cast_failure_is_reported(
    cfg: NotifydView,
    phase: PhaseView,
    result: RunResultView,
    diagnostic: Seq<char>,
    stopped: EventView,
    removed: EventView,
)
    requires
        phase is Casting,
        run_failure(result) == Some(diagnostic),
    ensures
        ({
            let (stopping, _) = next(cfg, phase, EventView::Ran(result));
            let (releasing, _) = next(cfg, stopping, stopped);
            next(cfg, releasing, removed)
        }) == (
            PhaseView::Responded,
            ActionView::Reply(
                ReplyView::Json {
                    status: 400,
                    body: ProtoResponseView {
                        success: false,
                        reason: "Failed to cast content"@,
                        err: diagnostic,
                    },
                },
            ),
        ),
{
}

/// With the local speaker as its target, `/notify` is `/action/speak`:
/// whatever is reported, both endpoints go on in the same way.
pub proof fn lemma_notify_local_is_speak(cfg: NotifydView, event: EventView)
    requires
        cfg.target_uuid == local_speaker(),
    ensures
        next(cfg, PhaseView::Received { endpoint: Endpoint::Notify }, event) == next(
            cfg,
            PhaseView::Received { endpoint: Endpoint::Speak },
            event,
        ),
{
}

/// With a device as its target, `/notify` is `/action/cast` to that device:
/// a body goes on in the same way as the same body with the device filled
/// in goes on at `/action/cast`.
pub proof fn lemma_notify_device_is_cast(cfg: NotifydView, body: Result<NotifyRequestView, Seq<char>>)
    requires
        cfg.target_uuid != local_speaker(),
    ensures
        next(
            cfg,
            PhaseView::Received { endpoint: Endpoint::Notify },
            EventView::Body(body),
        ) == next(
            cfg,
            PhaseView::Received { endpoint: Endpoint::Cast },
            EventView::Body(for_device(body, cfg.target_uuid)),
        ),
{
}

/// A static request never leaves the scratch directory: the file it points
/// at, if any, is the plain name behind the prefix, directly in the
/// directory. A name that is empty, `.` or `..`, or that holds a `/`, points
/// at nothing.
pub proof fn lemma_static_stays_in_scratch(tmpdir: Seq<char>, url: Seq<char>)
    ensures
        static_target(tmpdir, url) matches Some(path) ==> {
            let name = url.skip(static_prefix().len() as int);
            &&& url == static_prefix() + name
            &&& is_plain_name(name)
            &&& path == scratch_path(tmpdir, name)
            &&& tmpdir.len() > 0 ==> after_last(path, '/') == name
        },
        static_prefix().is_prefix_of(url) && !is_plain_name(url.skip(static_prefix().len() as int))
            ==> static_target(tmpdir, url) is None,
{
    let name = url.skip(static_prefix().len() as int);
    if static_target(tmpdir, url) is Some {
        assert(url =~= static_prefix() + name);
        if tmpdir.len() > 0 {
            lemma_scratch_path_file_name(tmpdir, name);
        }
    }
}

/// Every generated file can be fetched: the static URL path made of the
/// prefix and the file's name points back at the file.
pub proof fn lemma_generated_file_is_served(tmpdir: Seq<char>, digest: Seq<u8>)
    requires
        tmpdir.len() > 0,
    ensures
        static_target(
            tmpdir,
            static_prefix() + after_last(scratch_path(tmpdir, artifact_name(digest)), '/'),
        ) == Some(scratch_path(tmpdir, artifact_name(digest))),
{
    let name = artifact_name(digest);
    lemma_artifact_name_is_plain(digest);
    lemma_scratch_path_file_name(tmpdir, name);
    let url = static_prefix() + name;
    assert(url.skip(static_prefix().len() as int) =~= name);
    assert(url.subrange(0, static_prefix().len() as int) =~= static_prefix());
}

/// The same text spoken at two different times is hashed from two different
/// inputs, and the two files have one name only if the two digests are the
/// same.
pub proof fn lemma_same_text_other_time(tts: TTSView, text: Seq<char>, a: nat, b: nat)
    requires
        a != b,
    ensures
        hash_input(text, a) != hash_input(text, b),
        md5_digest(hash_input(text, a)) != md5_digest(hash_input(text, b)) ==> synthesis_of(
            tts,
            text,
            md5_digest(hash_input(text, a)),
        ).outpath != synthesis_of(tts, text, md5_digest(hash_input(text, b))).outpath,
{
    lemma_hash_input_differs(text, a, b);
    let x = md5_digest(hash_input(text, a));
    let y = md5_digest(hash_input(text, b));
    let p = scratch_path(tts.tmpdir, artifact_name(x));
    let q = scratch_path(tts.tmpdir, artifact_name(y));
    if x != y && p == q {
        lemma_artifact_name_is_plain(x);
        lemma_artifact_name_is_plain(y);
        if tts.tmpdir.len() > 0 {
            lemma_scratch_path_file_name(tts.tmpdir, artifact_name(x));
            lemma_scratch_path_file_name(tts.tmpdir, artifact_name(y));
        }
        lemma_artifact_name_injective(x, y);
    }
}

/// The engine that is resolved is a candidate for the request, is never
/// `AUTO`, was found, and no candidate preferred to it was found. Where no
/// engine is resolved, none of the candidates was found.
pub proof fn lemma_resolution_prefers_the_first(
    requested: TTSEngine,
    found: Seq<Option<Seq<char>>>,
)
    ensures
        resolution(requested, found) matches Ok(resolved) ==> exists|at: int|
            {
                &&& 0 <= at < candidates_of(requested).len()
                &&& at < found.len()
                &&& resolved.engine == #[trigger] candidates_of(requested)[at]
                &&& resolved.engine != TTSEngine::AUTO
                &&& found[at] == Some(resolved.path)
                &&& forall|j: int| 0 <= j < at ==> found[j] is None
            },
        resolution(requested, found) is Err ==> forall|j: int|
            0 <= j < candidates_of(requested).len() && j < found.len() ==> found[j] is None,
{
    let wanted = candidates_of(requested);
    let seen = looked_at(found, wanted.len() as int);
    lemma_first_found_bounds(seen);
    let at = first_found(seen);
    if at < seen.len() {
        assert(seen[at] == found[at]);
        assert forall|j: int| 0 <= j < at implies found[j] is None by {
            assert(seen[j] == found[j]);
        }
        assert(wanted[at] == candidates_of(requested)[at]);
    } else {
        assert forall|j: int| 0 <= j < wanted.len() && j < found.len() implies found[j] is None by {
            assert(seen[j] == found[j]);
        }
    }
}

/// A locale taken from a `LANG` value holds neither `_` nor `.`.
pub proof fn lemma_locale_is_normalized(lang: Seq<char>)
    ensures
        !locale_of(Some(lang)).contains('_'),
        !locale_of(Some(lang)).contains('.'),
{
    let head = before_first(lang, '.');
    let locale = locale_of(Some(lang));
    lemma_first_index_bounds(lang, '.');
    assert forall|i: int| 0 <= i < locale.len() implies locale[i] != '_' && locale[i] != '.' by {
        assert(head[i] == lang[i]);
    }
}

} // verus!
