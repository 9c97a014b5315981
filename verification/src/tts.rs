//! The synthesizer: an engine, a locale and a scratch directory, bound once
//! at start-up, and the preparation of one synthesis run.

use vstd::prelude::*;
use crate::artifact::{
    artifact_file_name,
    artifact_name,
    digest_of,
    hash_input,
    join_scratch,
    md5_digest,
    scratch_path,
    TtsSentence,
    TtsSentenceView,
};
use crate::command::{
    args3,
    check_run,
    run_failure,
    with_arg,
    Invocation,
    InvocationView,
    RunResult,
    RunResultView,
};
use crate::engine::{
    get_locale_from_env,
    locale_of,
    resolution,
    resolve,
    ResolvedEngineView,
    TTSEngine,
};
use crate::error::{ErrorKind, NotifydError, NotifydErrorView};

verus! {

/// The synthesizer's settings. They are fixed when the daemon starts.
#[derive(Debug)]
pub struct TTS {
    /// Path of the engine's executable.
    pub enginepath: String,
    /// Locale handed to the engine.
    pub lang: String,
    /// Directory in which the generated files lie.
    pub tmpdir: String,
}

/// What a `TTS` stands for.
pub struct TTSView {
    pub enginepath: Seq<char>,
    pub lang: Seq<char>,
    pub tmpdir: Seq<char>,
}

impl View for TTS {
    type V = TTSView;

    open spec fn view(&self) -> TTSView {
        TTSView { enginepath: self.enginepath@, lang: self.lang@, tmpdir: self.tmpdir@ }
    }
}

/// One synthesis that has been prepared: the command that performs it, the
/// file it writes and the text it speaks.
#[derive(Debug)]
pub struct Synthesis {
    pub command: Invocation,
    pub outpath: String,
    pub text: String,
}

/// What a `Synthesis` stands for.
pub struct SynthesisView {
    pub command: InvocationView,
    pub outpath: Seq<char>,
    pub text: Seq<char>,
}

impl View for Synthesis {
    type V = SynthesisView;

    open spec fn view(&self) -> SynthesisView {
        SynthesisView { command: self.command@, outpath: self.outpath@, text: self.text@ }
    }
}

/// The synthesis of `text` into the file named after `digest`: the engine is
/// started with the output path behind `-w`, the locale behind `-l`, and the
/// text as one last argument.
pub open spec fn synthesis_of(tts: TTSView, text: Seq<char>, digest: Seq<u8>) -> SynthesisView {
    let outpath = scratch_path(tts.tmpdir, artifact_name(digest));
    SynthesisView {
        command: InvocationView {
            program: tts.enginepath,
            args: seq!["-w"@, outpath, "-l"@, tts.lang, text],
        },
        outpath,
        text,
    }
}

/// What a finished synthesis run gives: the handle of the written file if
/// the run succeeded, else a synthesis failure with the run's diagnostic.
pub open spec fn synthesis_outcome(job: SynthesisView, result: RunResultView) -> Result<
    TtsSentenceView,
    NotifydErrorView,
> {
    match run_failure(result) {
        None => Ok(TtsSentenceView { text: job.text, path: job.outpath }),
        Some(diagnostic) => Err(
            NotifydErrorView { kind: ErrorKind::SynthesisFailure, message: diagnostic },
        ),
    }
}

impl TTS {
    /// Binds the synthesizer: the engine that serves `engine` according to
    /// the probe table `found`, the locale for the `LANG` value `lang`, and
    /// the scratch directory `tmpdir`. Fails if no engine was found.
    pub fn new(engine: TTSEngine, found: &Vec<Option<String>>, lang: Option<&str>, tmpdir: &str) -> (r:
        Result<TTS, NotifydError>)
        ensures
            match r {
                Ok(tts) => resolution(engine, found.deep_view()) is Ok && tts@ == (TTSView {
                    enginepath: resolution(engine, found.deep_view())->Ok_0.path,
                    lang: locale_of(
                        match lang {
                            Some(l) => Some(l@),
                            None => None,
                        },
                    ),
                    tmpdir: tmpdir@,
                }),
                Err(e) => resolution(engine, found.deep_view()) == Err::<
                    ResolvedEngineView,
                    NotifydErrorView,
                >(e@),
            },
    {
        match resolve(engine, found) {
            Ok(resolved) => Ok(
                TTS {
                    enginepath: resolved.path,
                    lang: get_locale_from_env(lang),
                    tmpdir: tmpdir.to_owned(),
                },
            ),
            Err(e) => Err(e),
        }
    }

    /// Prepares the synthesis of `text` into the file named after `digest`.
    pub fn plan(&self, text: &str, digest: &[u8; 16]) -> (job: Synthesis)
        ensures
            job@ == synthesis_of(self@, text@, digest@),
    {
        let name = artifact_file_name(digest);
        let outpath = join_scratch(self.tmpdir.as_str(), name.as_str());
        let args = args3("-w", outpath.as_str(), "-l");
        let args = with_arg(args, self.lang.as_str());
        let args = with_arg(args, text);
        let job = Synthesis {
            command: Invocation { program: self.enginepath.clone(), args },
            outpath,
            text: text.to_owned(),
        };
        assert(job@.command.args =~= synthesis_of(self@, text@, digest@).command.args);
        job
    }

    /// Prepares the synthesis of `text` requested at `now` (microseconds
    /// since the epoch): the output file is named after the digest of the
    /// text and the time.
    pub fn speak_to_file(&self, text: &str, now: u128) -> (job: Synthesis)
        ensures
            job@ == synthesis_of(self@, text@, md5_digest(hash_input(text@, now as nat))),
    {
        let digest = digest_of(text, now);
        self.plan(text, &digest)
    }
}

impl Synthesis {
    /// Concludes the synthesis from the way the engine's run ended.
    pub fn finish(self, result: RunResult) -> (r: Result<TtsSentence, NotifydError>)
        ensures
            match r {
                Ok(sentence) => synthesis_outcome(self@, result@) == Ok::<
                    TtsSentenceView,
                    NotifydErrorView,
                >(sentence@),
                Err(e) => synthesis_outcome(self@, result@) == Err::<
                    TtsSentenceView,
                    NotifydErrorView,
                >(e@),
            },
    {
        match check_run(result, ErrorKind::SynthesisFailure) {
            Ok(_) => Ok(TtsSentence { text: self.text, path: self.outpath }),
            Err(e) => Err(e),
        }
    }
}

} // verus!
