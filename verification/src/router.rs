//! One request, from its URL to its answer.
//!
//! `route` says what a request's URL asks for, and `next` what follows from
//! each report of the caller. Together they are the whole of the daemon's
//! behaviour; `Notifyd::route_request` and `Notifyd::step` compute them.
//! Whatever is reported, a request is answered after a bounded number of
//! steps, and a generated file is removed before the answer goes out.

use vstd::prelude::*;
use crate::artifact::{hash_input, md5_digest, TtsSentence, TtsSentenceView};
use crate::caster::{caster_missing, load_command, stop_command, Caster, CasterView};
use crate::command::{run_failure, Invocation, RunResult, RunResultView};
use crate::engine::{first_found, first_located, looked_at};
use crate::error::{ErrorKind, NotifydError, NotifydErrorView};
use crate::notifyd::{
    local_speaker,
    static_prefix,
    static_reply,
    static_target,
    static_url,
    Notifyd,
    NotifydView,
    PlaybackStrategy,
};
use crate::player::{
    candidate_players,
    playback_finished,
    playback_outcome,
    player_candidates,
    player_choice,
    player_finished,
};
use crate::protocol::{
    Action,
    ActionView,
    Delivery,
    DeliveryView,
    Endpoint,
    Event,
    EventView,
    NotifyRequest,
    NotifyRequestView,
    Phase,
    PhaseView,
};
use crate::text::{begins_with, chars_are, chars_of};
use crate::tts::{synthesis_of, synthesis_outcome, Synthesis, SynthesisView};
use crate::web::{
    error_reply,
    error_response,
    success_reply,
    success_response,
    Reply,
    ReplyView,
};

verus! {

/// A request that is done, with the answer to send.
pub open spec fn answer(reply: ReplyView) -> (PhaseView, ActionView) {
    (PhaseView::Responded, ActionView::Reply(reply))
}

/// The answer to a body that is missing, malformed or incomplete.
pub open spec fn bad_arguments(detail: Seq<char>) -> (PhaseView, ActionView) {
    answer(
        error_reply(
            "Bad arguments"@,
            NotifydErrorView { kind: ErrorKind::BadRequest, message: detail },
        ),
    )
}

/// The answer to a report that does not belong to the phase the request is
/// in.
pub open spec fn out_of_turn() -> ReplyView {
    error_reply(
        "Internal error"@,
        NotifydErrorView { kind: ErrorKind::BadRequest, message: "unexpected event"@ },
    )
}

/// Giving up the file of `sentence`: it is removed, and `reply` goes out
/// once that is done.
pub open spec fn release(sentence: TtsSentenceView, reply: ReplyView) -> (PhaseView, ActionView) {
    (PhaseView::Releasing { reply }, ActionView::Remove { path: sentence.path })
}

/// Ending a cast: the device is told to stop, then the file is given up.
pub open spec fn teardown(sentence: TtsSentenceView, caster: CasterView, reply: ReplyView) -> (
    PhaseView,
    ActionView,
) {
    (
        PhaseView::Stopping { sentence, reply },
        ActionView::Run(stop_command(caster.target_uid)),
    )
}

/// `text` is to be spoken on the local speaker.
pub open spec fn do_tts(text: Seq<char>) -> (PhaseView, ActionView) {
    (PhaseView::Validated { text, target: DeliveryView::Local }, ActionView::ReadClock)
}

/// `text` is to be cast to the device `uid`.
pub open spec fn do_bcast(text: Seq<char>, uid: Seq<char>) -> (PhaseView, ActionView) {
    (PhaseView::Validated { text, target: DeliveryView::Device(uid) }, ActionView::ReadClock)
}

/// What the body of a request to `/action/speak` leads to.
pub open spec fn tts_request(body: Result<NotifyRequestView, Seq<char>>) -> (
    PhaseView,
    ActionView,
) {
    match body {
        Err(why) => bad_arguments(why),
        Ok(request) => match request.text {
            None => bad_arguments("missing field `text`"@),
            Some(text) => do_tts(text),
        },
    }
}

/// What the body of a request to `/action/cast` leads to.
pub open spec fn bcast_request(body: Result<NotifyRequestView, Seq<char>>) -> (
    PhaseView,
    ActionView,
) {
    match body {
        Err(why) => bad_arguments(why),
        Ok(request) => match request.text {
            None => bad_arguments("missing field `text`"@),
            Some(text) => match request.uid {
                None => bad_arguments("missing field `uid`"@),
                Some(uid) => do_bcast(text, uid),
            },
        },
    }
}

/// What the body of a request to `/notify` leads to: the text is spoken on
/// the local speaker if that is the configured target, and cast to the
/// configured device otherwise.
pub open spec fn notify_request(cfg: NotifydView, body: Result<NotifyRequestView, Seq<char>>) -> (
    PhaseView,
    ActionView,
) {
    match body {
        Err(why) => bad_arguments(why),
        Ok(request) => match request.text {
            None => bad_arguments("missing field `text`"@),
            Some(text) => if cfg.target_uuid == local_speaker() {
                do_tts(text)
            } else {
                do_bcast(text, cfg.target_uuid)
            },
        },
    }
}

/// What the URL of a request leads to.
pub open spec fn route(cfg: NotifydView, url: Seq<char>) -> (PhaseView, ActionView) {
    if url == "/action/speak"@ {
        (PhaseView::Received { endpoint: Endpoint::Speak }, ActionView::ReadBody)
    } else if url == "/action/cast"@ {
        (PhaseView::Received { endpoint: Endpoint::Cast }, ActionView::ReadBody)
    } else if url == "/notify"@ {
        (PhaseView::Received { endpoint: Endpoint::Notify }, ActionView::ReadBody)
    } else if static_prefix().is_prefix_of(url) {
        match static_target(cfg.tts.tmpdir, url) {
            Some(path) => (PhaseView::Probing { path }, ActionView::Probe { path }),
            None => answer(ReplyView::NotFound),
        }
    } else {
        answer(
            error_reply(
                "No such endpoint"@,
                NotifydErrorView { kind: ErrorKind::NotFound, message: "No endpoint "@ + url },
            ),
        )
    }
}

/// The start of local playback of `sentence`.
pub open spec fn start_playback(cfg: NotifydView, sentence: TtsSentenceView) -> (
    PhaseView,
    ActionView,
) {
    match cfg.player {
        PlaybackStrategy::Native => (
            PhaseView::Playing { sentence },
            ActionView::Play { path: sentence.path },
        ),
        PlaybackStrategy::External => (
            PhaseView::LocatingPlayer { sentence },
            ActionView::Locate(player_candidates()),
        ),
    }
}

/// The end of local playback of `sentence`.
pub open spec fn finish_playback(sentence: TtsSentenceView, outcome: Result<(), NotifydErrorView>) -> (
    PhaseView,
    ActionView,
) {
    release(
        sentence,
        match outcome {
            Ok(_) => success_reply("Done emitting requested text"@),
            Err(e) => error_reply("Failed playing text"@, e),
        },
    )
}

/// What the end of the engine's run leads to.
pub open spec fn synthesized(
    cfg: NotifydView,
    job: SynthesisView,
    target: DeliveryView,
    result: RunResultView,
) -> (PhaseView, ActionView) {
    match synthesis_outcome(job, result) {
        Err(e) => answer(
            error_reply(
                match target {
                    DeliveryView::Local => "Failed to generate TTS from text"@,
                    DeliveryView::Device(_) => "Failed to generate TTS"@,
                },
                e,
            ),
        ),
        Ok(sentence) => match target {
            DeliveryView::Local => start_playback(cfg, sentence),
            DeliveryView::Device(uid) => (
                PhaseView::Addressing { sentence, uid },
                ActionView::QueryAddress,
            ),
        },
    }
}

/// What the report of the players that were found leads to.
pub open spec fn player_located(sentence: TtsSentenceView, found: Seq<Option<Seq<char>>>) -> (
    PhaseView,
    ActionView,
) {
    match player_choice(sentence, found) {
        Ok(command) => (PhaseView::RunningPlayer { sentence }, ActionView::Run(command)),
        Err(e) => finish_playback(sentence, Err(e)),
    }
}

/// What the report of this machine's address leads to.
pub open spec fn addressed(
    cfg: NotifydView,
    sentence: TtsSentenceView,
    uid: Seq<char>,
    address: Result<Seq<char>, Seq<char>>,
) -> (PhaseView, ActionView) {
    match address {
        Ok(a) => (
            PhaseView::LocatingCaster {
                sentence,
                uid,
                url: static_url(a, cfg.port, sentence.path),
            },
            ActionView::Locate(seq!["go-chromecast"@]),
        ),
        Err(why) => release(
            sentence,
            error_reply(
                "Failed start cast"@,
                NotifydErrorView { kind: ErrorKind::CastFailure, message: why },
            ),
        ),
    }
}

/// What the report on the casting tool leads to.
pub open spec fn caster_located(
    sentence: TtsSentenceView,
    uid: Seq<char>,
    url: Seq<char>,
    found: Seq<Option<Seq<char>>>,
) -> (PhaseView, ActionView) {
    let seen = looked_at(found, 1);
    if first_found(seen) < seen.len() {
        let caster = CasterView { target_uid: uid, url };
        (PhaseView::Casting { sentence, caster }, ActionView::Run(load_command(caster)))
    } else {
        release(sentence, error_reply("Failed start cast"@, caster_missing()))
    }
}

/// What the end of the casting tool's run leads to.
pub open spec fn cast_finished(sentence: TtsSentenceView, caster: CasterView, result: RunResultView) -> (
    PhaseView,
    ActionView,
) {
    teardown(
        sentence,
        caster,
        match run_failure(result) {
            None => success_reply("Content casted"@),
            Some(diagnostic) => error_reply(
                "Failed to cast content"@,
                NotifydErrorView { kind: ErrorKind::CastFailure, message: diagnostic },
            ),
        },
    )
}

/// What a report that does not belong to `phase` leads to: the request is
/// answered with `out_of_turn`, after what is held for it has been given up.
pub open spec fn derail(phase: PhaseView) -> (PhaseView, ActionView) {
    match phase {
        PhaseView::Playing { sentence } => release(sentence, out_of_turn()),
        PhaseView::LocatingPlayer { sentence } => release(sentence, out_of_turn()),
        PhaseView::RunningPlayer { sentence } => release(sentence, out_of_turn()),
        PhaseView::Addressing { sentence, uid } => release(sentence, out_of_turn()),
        PhaseView::LocatingCaster { sentence, uid, url } => release(sentence, out_of_turn()),
        PhaseView::Casting { sentence, caster } => teardown(sentence, caster, out_of_turn()),
        PhaseView::Stopping { sentence, reply } => release(sentence, reply),
        PhaseView::Releasing { reply } => answer(reply),
        PhaseView::Responded => (PhaseView::Responded, ActionView::Idle),
        _ => answer(out_of_turn()),
    }
}

/// What follows when `event` is reported for a request in `phase`.
pub open spec fn next(cfg: NotifydView, phase: PhaseView, event: EventView) -> (
    PhaseView,
    ActionView,
) {
    match (phase, event) {
        (PhaseView::Received { endpoint }, EventView::Body(body)) => match endpoint {
            Endpoint::Speak => tts_request(body),
            Endpoint::Cast => bcast_request(body),
            Endpoint::Notify => notify_request(cfg, body),
        },
        (PhaseView::Validated { text, target }, EventView::Clock(now)) => {
            let job = synthesis_of(cfg.tts, text, md5_digest(hash_input(text, now as nat)));
            (PhaseView::Synthesizing { job, target }, ActionView::Run(job.command))
        },
        (PhaseView::Synthesizing { job, target }, EventView::Ran(result)) => synthesized(
            cfg,
            job,
            target,
            result,
        ),
        (PhaseView::Playing { sentence }, EventView::Played(failure)) => finish_playback(
            sentence,
            playback_outcome(failure),
        ),
        (PhaseView::LocatingPlayer { sentence }, EventView::Located(found)) => player_located(
            sentence,
            found,
        ),
        (PhaseView::RunningPlayer { sentence }, EventView::Ran(result)) => finish_playback(
            sentence,
            playback_outcome(run_failure(result)),
        ),
        (PhaseView::Addressing { sentence, uid }, EventView::Address(address)) => addressed(
            cfg,
            sentence,
            uid,
            address,
        ),
        (PhaseView::LocatingCaster { sentence, uid, url }, EventView::Located(found)) => {
            caster_located(sentence, uid, url, found)
        },
        (PhaseView::Casting { sentence, caster }, EventView::Ran(result)) => cast_finished(
            sentence,
            caster,
            result,
        ),
        (PhaseView::Probing { path }, EventView::Probed(status)) => answer(
            static_reply(path, status),
        ),
        _ => derail(phase),
    }
}

/// What the body reported with `Event::Body` stands for.
pub open spec fn body_view(body: Result<NotifyRequest, String>) -> Result<
    NotifyRequestView,
    Seq<char>,
> {
    match body {
        Ok(request) => Ok(request@),
        Err(why) => Err(why@),
    }
}

fn answer_with(reply: Reply) -> (r: (Phase, Action))
    ensures
        (r.0@, r.1@) == answer(reply@),
{
    (Phase::Responded, Action::Reply(reply))
}

fn refuse_body(detail: &str) -> (r: (Phase, Action))
    ensures
        (r.0@, r.1@) == bad_arguments(detail@),
{
    answer_with(error_response("Bad arguments", NotifydError::new(ErrorKind::BadRequest, detail)))
}

fn out_of_turn_reply() -> (reply: Reply)
    ensures
        reply@ == out_of_turn(),
{
    error_response("Internal error", NotifydError::new(ErrorKind::BadRequest, "unexpected event"))
}

impl TtsSentence {
    /// Gives the handle up: what is left to do is to remove its file.
    pub fn delete(self) -> (action: Action)
        ensures
            action@ == (ActionView::Remove { path: self@.path }),
    {
        Action::Remove { path: self.path }
    }
}

fn release_file(sentence: TtsSentence, reply: Reply) -> (r: (Phase, Action))
    ensures
        (r.0@, r.1@) == release(sentence@, reply@),
{
    (Phase::Releasing { reply }, sentence.delete())
}

fn teardown_cast(sentence: TtsSentence, caster: Caster, reply: Reply) -> (r: (Phase, Action))
    ensures
        (r.0@, r.1@) == teardown(sentence@, caster@, reply@),
{
    let stop = caster.stop();
    (Phase::Stopping { sentence, reply }, Action::Run(stop))
}

fn end_playback(sentence: TtsSentence, outcome: Result<(), NotifydError>) -> (r: (Phase, Action))
    ensures
        (r.0@, r.1@) == finish_playback(
            sentence@,
            match outcome {
                Ok(_) => Ok(()),
                Err(e) => Err(e@),
            },
        ),
{
    let reply = match outcome {
        Ok(_) => success_response("Done emitting requested text"),
        Err(e) => error_response("Failed playing text", e),
    };
    release_file(sentence, reply)
}

impl Notifyd {
    /// Starts the handling of a request for `url`.
    pub fn route_request(&self, url: &str) -> (r: (Phase, Action))
        ensures
            (r.0@, r.1@) == route(self@, url@),
    {
        let chars = chars_of(url);
        if chars_are(&chars, "/action/speak") {
            (Phase::Received { endpoint: Endpoint::Speak }, Action::ReadBody)
        } else if chars_are(&chars, "/action/cast") {
            (Phase::Received { endpoint: Endpoint::Cast }, Action::ReadBody)
        } else if chars_are(&chars, "/notify") {
            (Phase::Received { endpoint: Endpoint::Notify }, Action::ReadBody)
        } else if begins_with(&chars, "/static/") {
            match self.handle_static_req(url) {
                Some(path) => {
                    let probed = path.clone();
                    (Phase::Probing { path }, Action::Probe { path: probed })
                },
                None => answer_with(Reply::NotFound),
            }
        } else {
            let mut detail = "No endpoint ".to_owned();
            detail.append(url);
            answer_with(
                error_response(
                    "No such endpoint",
                    NotifydError { kind: ErrorKind::NotFound, message: detail },
                ),
            )
        }
    }

    /// Takes up `text` for the local speaker.
    pub fn do_tts(text: String) -> (r: (Phase, Action))
        ensures
            (r.0@, r.1@) == do_tts(text@),
    {
        (Phase::Validated { text, target: Delivery::Local }, Action::ReadClock)
    }

    /// Takes up `text` for the device `uid`.
    pub fn do_bcast(text: String, uid: String) -> (r: (Phase, Action))
        ensures
            (r.0@, r.1@) == do_bcast(text@, uid@),
    {
        (Phase::Validated { text, target: Delivery::Device(uid) }, Action::ReadClock)
    }

    /// Handles the body of a request to `/action/speak`.
    pub fn handle_tts_request(body: Result<NotifyRequest, String>) -> (r: (Phase, Action))
        ensures
            (r.0@, r.1@) == tts_request(body_view(body)),
    {
        match body {
            Err(why) => refuse_body(why.as_str()),
            Ok(request) => match request.text {
                None => refuse_body("missing field `text`"),
                Some(text) => Notifyd::do_tts(text),
            },
        }
    }

    /// Handles the body of a request to `/action/cast`.
    pub fn handle_bcast_req(body: Result<NotifyRequest, String>) -> (r: (Phase, Action))
        ensures
            (r.0@, r.1@) == bcast_request(body_view(body)),
    {
        match body {
            Err(why) => refuse_body(why.as_str()),
            Ok(request) => match request.text {
                None => refuse_body("missing field `text`"),
                Some(text) => match request.uid {
                    None => refuse_body("missing field `uid`"),
                    Some(uid) => Notifyd::do_bcast(text, uid),
                },
            },
        }
    }

    /// Handles the body of a request to `/notify`.
    pub fn handle_notify_req(&self, body: Result<NotifyRequest, String>) -> (r: (Phase, Action))
        ensures
            (r.0@, r.1@) == notify_request(self@, body_view(body)),
    {
        match body {
            Err(why) => refuse_body(why.as_str()),
            Ok(request) => match request.text {
                None => refuse_body("missing field `text`"),
                Some(text) => if self.notifies_locally() {
                    Notifyd::do_tts(text)
                } else {
                    Notifyd::do_bcast(text, self.target_uuid.clone())
                },
            },
        }
    }

    /// Starts local playback of `sentence`.
    pub fn play(&self, sentence: TtsSentence) -> (r: (Phase, Action))
        ensures
            (r.0@, r.1@) == start_playback(self@, sentence@),
    {
        match self.player {
            PlaybackStrategy::Native => {
                let path = sentence.path.clone();
                (Phase::Playing { sentence }, Action::Play { path })
            },
            PlaybackStrategy::External => (
                Phase::LocatingPlayer { sentence },
                Action::Locate(candidate_players()),
            ),
        }
    }

    /// Concludes the engine's run for `job`.
    pub fn speak_done(&self, job: Synthesis, target: Delivery, result: RunResult) -> (r: (
        Phase,
        Action,
    ))
        ensures
            (r.0@, r.1@) == synthesized(self@, job@, target@, result@),
    {
        match job.finish(result) {
            Err(e) => {
                let reason = match target {
                    Delivery::Local => "Failed to generate TTS from text",
                    Delivery::Device(_) => "Failed to generate TTS",
                };
                answer_with(error_response(reason, e))
            },
            Ok(sentence) => match target {
                Delivery::Local => self.play(sentence),
                Delivery::Device(uid) => (
                    Phase::Addressing { sentence, uid },
                    Action::QueryAddress,
                ),
            },
        }
    }

    /// What follows when `event` is reported for a request in `phase`.
    pub fn step(&self, phase: Phase, event: Event) -> (r: (Phase, Action))
        ensures
            (r.0@, r.1@) == next(self@, phase@, event@),
    {
        match phase {
            Phase::Received { endpoint } => match event {
                Event::Body(body) => match endpoint {
                    Endpoint::Speak => Notifyd::handle_tts_request(body),
                    Endpoint::Cast => Notifyd::handle_bcast_req(body),
                    Endpoint::Notify => self.handle_notify_req(body),
                },
                _ => answer_with(out_of_turn_reply()),
            },
            Phase::Validated { text, target } => match event {
                Event::Clock(now) => {
                    let job = self.tts.speak_to_file(text.as_str(), now);
                    let command = Invocation {
                        program: job.command.program.clone(),
                        args: job.command.args.clone(),
                    };
                    assert(command@.args =~= job@.command.args);
                    (Phase::Synthesizing { job, target }, Action::Run(command))
                },
                _ => answer_with(out_of_turn_reply()),
            },
            Phase::Synthesizing { job, target } => match event {
                Event::Ran(result) => self.speak_done(job, target, result),
                _ => answer_with(out_of_turn_reply()),
            },
            Phase::Playing { sentence } => match event {
                Event::Played(result) => end_playback(sentence, playback_finished(result)),
                _ => release_file(sentence, out_of_turn_reply()),
            },
            Phase::LocatingPlayer { sentence } => match event {
                Event::Located(found) => match sentence.play_external(&found) {
                    Ok(command) => (Phase::RunningPlayer { sentence }, Action::Run(command)),
                    Err(e) => end_playback(sentence, Err(e)),
                },
                _ => release_file(sentence, out_of_turn_reply()),
            },
            Phase::RunningPlayer { sentence } => match event {
                Event::Ran(result) => end_playback(sentence, player_finished(result)),
                _ => release_file(sentence, out_of_turn_reply()),
            },
            Phase::Addressing { sentence, uid } => match event {
                Event::Address(address) => match address {
                    Ok(a) => {
                        let url = self.sentence_static_url(&sentence, a.as_str());
                        let mut names: Vec<String> = Vec::new();
                        names.push("go-chromecast".to_owned());
                        assert(names.deep_view() =~= seq!["go-chromecast"@]);
                        (Phase::LocatingCaster { sentence, uid, url }, Action::Locate(names))
                    },
                    Err(why) => release_file(
                        sentence,
                        error_response(
                            "Failed start cast",
                            NotifydError { kind: ErrorKind::CastFailure, message: why },
                        ),
                    ),
                },
                _ => release_file(sentence, out_of_turn_reply()),
            },
            Phase::LocatingCaster { sentence, uid, url } => match event {
                Event::Located(found) => {
                    let at = first_located(&found, 1);
                    match Caster::new(uid, url, at < 1 && at < found.len()) {
                        Ok(caster) => {
                            let load = caster.load();
                            (Phase::Casting { sentence, caster }, Action::Run(load))
                        },
                        Err(e) => release_file(sentence, error_response("Failed start cast", e)),
                    }
                },
                _ => release_file(sentence, out_of_turn_reply()),
            },
            Phase::Casting { sentence, caster } => match event {
                Event::Ran(result) => {
                    let reply = match Caster::do_run(result) {
                        Ok(_) => success_response("Content casted"),
                        Err(e) => error_response("Failed to cast content", e),
                    };
                    teardown_cast(sentence, caster, reply)
                },
                _ => teardown_cast(sentence, caster, out_of_turn_reply()),
            },
            Phase::Stopping { sentence, reply } => release_file(sentence, reply),
            Phase::Releasing { reply } => answer_with(reply),
            Phase::Probing { path } => match event {
                Event::Probed(status) => answer_with(Notifyd::static_response(path, status)),
                _ => answer_with(out_of_turn_reply()),
            },
            Phase::Responded => (Phase::Responded, Action::Idle),
        }
    }
}

} // verus!
