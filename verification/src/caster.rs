//! Casting to a networked speaker through the `go-chromecast` tool.

use vstd::prelude::*;
use crate::command::{args3, check_run, run_failure, with_arg, Invocation, InvocationView, RunResult};
use crate::error::{ErrorKind, NotifydError, NotifydErrorView};

verus! {

/// One cast: the device it goes to and the URL the device is to play.
#[derive(Debug)]
pub struct Caster {
    pub target_uid: String,
    pub url: String,
}

/// What a `Caster` stands for.
pub struct CasterView {
    pub target_uid: Seq<char>,
    pub url: Seq<char>,
}

impl View for Caster {
    type V = CasterView;

    open spec fn view(&self) -> CasterView {
        CasterView { target_uid: self.target_uid@, url: self.url@ }
    }
}

/// The error of a cast that cannot start because the tool is missing.
pub open spec fn caster_missing() -> NotifydErrorView {
    NotifydErrorView {
        kind: ErrorKind::StartupFatal,
        message: "Cannot locate go-chromecast in path"@,
    }
}

/// The command that makes the device load and play the URL.
pub open spec fn load_command(caster: CasterView) -> InvocationView {
    InvocationView {
        program: "go-chromecast"@,
        args: seq!["load"@, "-u"@, caster.target_uid, caster.url],
    }
}

/// The command that makes the device stop playing.
pub open spec fn stop_command(target_uid: Seq<char>) -> InvocationView {
    InvocationView { program: "go-chromecast"@, args: seq!["stop"@, "-u"@, target_uid] }
}

impl Caster {
    /// Whether casting is possible, given whether the tool was located.
    pub fn has_go_chromecast(located: bool) -> (r: Result<(), NotifydError>)
        ensures
            r is Ok <==> located,
            r matches Err(e) ==> e@ == caster_missing(),
    {
        if located {
            Ok(())
        } else {
            Err(NotifydError::new(ErrorKind::StartupFatal, "Cannot locate go-chromecast in path"))
        }
    }

    /// A cast of `url` to the device `uid`. Fails if the tool was not
    /// located; it never falls back to anything else.
    pub fn new(uid: String, url: String, located: bool) -> (r: Result<Caster, NotifydError>)
        ensures
            r is Ok <==> located,
            r matches Ok(c) ==> c@ == (CasterView { target_uid: uid@, url: url@ }),
            r matches Err(e) ==> e@ == caster_missing(),
    {
        match Caster::has_go_chromecast(located) {
            Ok(_) => Ok(Caster { target_uid: uid, url }),
            Err(e) => Err(e),
        }
    }

    /// The command that starts the cast.
    pub fn load(&self) -> (command: Invocation)
        ensures
            command@ == load_command(self@),
    {
        let args = args3("load", "-u", self.target_uid.as_str());
        let args = with_arg(args, self.url.as_str());
        let command = Invocation { program: "go-chromecast".to_owned(), args };
        assert(command@.args =~= load_command(self@).args);
        command
    }

    /// The command that stops whatever the device plays.
    pub fn stop(&self) -> (command: Invocation)
        ensures
            command@ == stop_command(self@.target_uid),
    {
        let args = args3("stop", "-u", self.target_uid.as_str());
        Invocation { program: "go-chromecast".to_owned(), args }
    }

    /// Judges a run of the tool: a failed run is a cast failure that carries
    /// what the tool wrote to standard error.
    pub fn do_run(result: RunResult) -> (r: Result<(), NotifydError>)
        ensures
            match r {
                Ok(_) => run_failure(result@) is None,
                Err(e) => run_failure(result@) == Some(e@.message) && e@.kind
                    == ErrorKind::CastFailure,
            },
    {
        check_run(result, ErrorKind::CastFailure)
    }
}

} // verus!
