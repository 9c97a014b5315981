//! The vocabulary in which the daemon and its caller talk about one request.
//!
//! The daemon's work for a request alternates between deciding and doing:
//! read the body, read the clock, run the engine, play or cast, remove the
//! file, answer. The daemon decides; its caller does. An `Action` says what
//! is to be done now, an `Event` reports what came of it, and a `Phase` is
//! what the daemon holds for the request in between.

use vstd::prelude::*;
use crate::artifact::{TtsSentence, TtsSentenceView};
use crate::caster::{Caster, CasterView};
use crate::command::{Invocation, InvocationView, RunResult, RunResultView};
use crate::player::device_failure;
use crate::tts::{Synthesis, SynthesisView};
use crate::web::{FileStatus, FileStatusView, Reply, ReplyView};

verus! {

/// The endpoints that take a JSON body.
#[derive(Clone, Copy, Debug, PartialEq, Eq, Structural)]
pub enum Endpoint {
    /// `/action/speak`
    Speak,
    /// `/action/cast`
    Cast,
    /// `/notify`
    Notify,
}

/// The fields of a request body, as far as they were present.
#[derive(Debug)]
pub struct NotifyRequest {
    pub text: Option<String>,
    pub uid: Option<String>,
}

/// What a `NotifyRequest` stands for.
pub struct NotifyRequestView {
    pub text: Option<Seq<char>>,
    pub uid: Option<Seq<char>>,
}

impl View for NotifyRequest {
    type V = NotifyRequestView;

    open spec fn view(&self) -> NotifyRequestView {
        NotifyRequestView { text: self.text.deep_view(), uid: self.uid.deep_view() }
    }
}

/// Where a sentence is to be heard.
#[derive(Debug)]
pub enum Delivery {
    /// On the local speaker.
    Local,
    /// On the networked device with this identifier.
    Device(String),
}

/// What a `Delivery` stands for.
pub enum DeliveryView {
    Local,
    Device(Seq<char>),
}

impl View for Delivery {
    type V = DeliveryView;

    open spec fn view(&self) -> DeliveryView {
        match self {
            Delivery::Local => DeliveryView::Local,
            Delivery::Device(uid) => DeliveryView::Device(uid@),
        }
    }
}

/// What the caller is to do next.
#[derive(Debug)]
pub enum Action {
    /// Parse the request body and report it with `Event::Body`.
    ReadBody,
    /// Read the clock and report it with `Event::Clock`.
    ReadClock,
    /// Run the program to its end and report with `Event::Ran`.
    Run(Invocation),
    /// Play the file through the audio device until it has been heard, and
    /// report with `Event::Played`.
    Play { path: String },
    /// Look for these programs and report with `Event::Located`, one entry
    /// for each name, in this order.
    Locate(Vec<String>),
    /// Find the address under which this machine is reached and report it
    /// with `Event::Address`.
    QueryAddress,
    /// Remove the file and report with `Event::Removed`, whether or not the
    /// removal succeeded.
    Remove { path: String },
    /// Find out what lies at the path and report with `Event::Probed`.
    Probe { path: String },
    /// Send the answer. The request is done.
    Reply(Reply),
    /// Nothing is left to do.
    Idle,
}

/// What an `Action` stands for.
pub enum ActionView {
    ReadBody,
    ReadClock,
    Run(InvocationView),
    Play { path: Seq<char> },
    Locate(Seq<Seq<char>>),
    QueryAddress,
    Remove { path: Seq<char> },
    Probe { path: Seq<char> },
    Reply(ReplyView),
    Idle,
}

impl View for Action {
    type V = ActionView;

    open spec fn view(&self) -> ActionView {
        match self {
            Action::ReadBody => ActionView::ReadBody,
            Action::ReadClock => ActionView::ReadClock,
            Action::Run(command) => ActionView::Run(command@),
            Action::Play { path } => ActionView::Play { path: path@ },
            Action::Locate(names) => ActionView::Locate(names.deep_view()),
            Action::QueryAddress => ActionView::QueryAddress,
            Action::Remove { path } => ActionView::Remove { path: path@ },
            Action::Probe { path } => ActionView::Probe { path: path@ },
            Action::Reply(reply) => ActionView::Reply(reply@),
            Action::Idle => ActionView::Idle,
        }
    }
}

/// What the caller reports back.
#[derive(Debug)]
pub enum Event {
    /// The parsed body, or why it could not be parsed.
    Body(Result<NotifyRequest, String>),
    /// The time in microseconds since the epoch.
    Clock(u128),
    /// How the program that was run ended.
    Ran(RunResult),
    /// The end of playback through the audio device; `Err` holds the
    /// diagnostic of a failure.
    Played(Result<(), String>),
    /// Where each of the programs looked for was found.
    Located(Vec<Option<String>>),
    /// The address of this machine, or why it could not be found.
    Address(Result<String, String>),
    /// The file has been removed, or could not be.
    Removed,
    /// What lies at the path that was probed.
    Probed(FileStatus),
}

/// What an `Event` stands for.
pub enum EventView {
    Body(Result<NotifyRequestView, Seq<char>>),
    Clock(u128),
    Ran(RunResultView),
    /// The diagnostic of a failed playback; `None` for a success.
    Played(Option<Seq<char>>),
    Located(Seq<Option<Seq<char>>>),
    Address(Result<Seq<char>, Seq<char>>),
    Removed,
    Probed(FileStatusView),
}

impl View for Event {
    type V = EventView;

    open spec fn view(&self) -> EventView {
        match self {
            Event::Body(body) => EventView::Body(
                match body {
                    Ok(request) => Ok(request@),
                    Err(why) => Err(why@),
                },
            ),
            Event::Clock(now) => EventView::Clock(*now),
            Event::Ran(result) => EventView::Ran(result@),
            Event::Played(result) => EventView::Played(device_failure(*result)),
            Event::Located(found) => EventView::Located(found.deep_view()),
            Event::Address(address) => EventView::Address(
                match address {
                    Ok(a) => Ok(a@),
                    Err(why) => Err(why@),
                },
            ),
            Event::Removed => EventView::Removed,
            Event::Probed(status) => EventView::Probed(status@),
        }
    }
}

/// The phase a request is in, with what the daemon holds for it.
#[derive(Debug)]
pub enum Phase {
    /// The request has come in for `endpoint`; its body is being read.
    Received { endpoint: Endpoint },
    /// The body was in order; the clock is being read.
    Validated { text: String, target: Delivery },
    /// The engine is running.
    Synthesizing { job: Synthesis, target: Delivery },
    /// The sentence is being played through the audio device.
    Playing { sentence: TtsSentence },
    /// A player program is being looked for.
    LocatingPlayer { sentence: TtsSentence },
    /// A player program is running.
    RunningPlayer { sentence: TtsSentence },
    /// This machine's address is being found.
    Addressing { sentence: TtsSentence, uid: String },
    /// The casting tool is being looked for.
    LocatingCaster { sentence: TtsSentence, uid: String, url: String },
    /// The casting tool is loading the sentence onto the device.
    Casting { sentence: TtsSentence, caster: Caster },
    /// The device is being told to stop; `reply` waits.
    Stopping { sentence: TtsSentence, reply: Reply },
    /// The generated file is being removed; `reply` waits.
    Releasing { reply: Reply },
    /// A static file is being probed.
    Probing { path: String },
    /// The answer has been given.
    Responded,
}

/// What a `Phase` stands for.
pub enum PhaseView {
    Received { endpoint: Endpoint },
    Validated { text: Seq<char>, target: DeliveryView },
    Synthesizing { job: SynthesisView, target: DeliveryView },
    Playing { sentence: TtsSentenceView },
    LocatingPlayer { sentence: TtsSentenceView },
    RunningPlayer { sentence: TtsSentenceView },
    Addressing { sentence: TtsSentenceView, uid: Seq<char> },
    LocatingCaster { sentence: TtsSentenceView, uid: Seq<char>, url: Seq<char> },
    Casting { sentence: TtsSentenceView, caster: CasterView },
    Stopping { sentence: TtsSentenceView, reply: ReplyView },
    Releasing { reply: ReplyView },
    Probing { path: Seq<char> },
    Responded,
}

impl View for Phase {
    type V = PhaseView;

    open spec fn view(&self) -> PhaseView {
        match self {
            Phase::Received { endpoint } => PhaseView::Received { endpoint: *endpoint },
            Phase::Validated { text, target } => PhaseView::Validated {
                text: text@,
                target: target@,
            },
            Phase::Synthesizing { job, target } => PhaseView::Synthesizing {
                job: job@,
                target: target@,
            },
            Phase::Playing { sentence } => PhaseView::Playing { sentence: sentence@ },
            Phase::LocatingPlayer { sentence } => PhaseView::LocatingPlayer {
                sentence: sentence@,
            },
            Phase::RunningPlayer { sentence } => PhaseView::RunningPlayer { sentence: sentence@ },
            Phase::Addressing { sentence, uid } => PhaseView::Addressing {
                sentence: sentence@,
                uid: uid@,
            },
            Phase::LocatingCaster { sentence, uid, url } => PhaseView::LocatingCaster {
                sentence: sentence@,
                uid: uid@,
                url: url@,
            },
            Phase::Casting { sentence, caster } => PhaseView::Casting {
                sentence: sentence@,
                caster: caster@,
            },
            Phase::Stopping { sentence, reply } => PhaseView::Stopping {
                sentence: sentence@,
                reply: reply@,
            },
            Phase::Releasing { reply } => PhaseView::Releasing { reply: reply@ },
            Phase::Probing { path } => PhaseView::Probing { path: path@ },
            Phase::Responded => PhaseView::Responded,
        }
    }
}

} // verus!
