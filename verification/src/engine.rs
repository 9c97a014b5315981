//! Choosing the synthesis engine and the locale it speaks.
//!
//! Looking for an executable is the caller's business. What was found is
//! handed in as a table, one entry per candidate in the order the candidates
//! are listed; an entry is the path of the executable, or `None`.

use vstd::prelude::*;
use crate::error::{ErrorKind, NotifydError, NotifydErrorView};
use crate::text::{before_first, chars_of, find_first, lemma_first_index_bounds, replaced};

verus! {

/// A synthesis engine, or `AUTO` for "whichever is installed". `AUTO` is a
/// request only: it is never the engine that runs.
#[derive(Clone, Copy, Debug, PartialEq, Eq, Structural)]
pub enum TTSEngine {
    PICO2WAV,
    ESPEAK,
    ESPEAKNG,
    AUTO,
}

/// An engine that can run: which one it is and where its executable lies.
#[derive(Debug)]
pub struct ResolvedEngine {
    pub engine: TTSEngine,
    pub path: String,
}

/// What a `ResolvedEngine` stands for.
pub struct ResolvedEngineView {
    pub engine: TTSEngine,
    pub path: Seq<char>,
}

impl View for ResolvedEngine {
    type V = ResolvedEngineView;

    open spec fn view(&self) -> ResolvedEngineView {
        ResolvedEngineView { engine: self.engine, path: self.path@ }
    }
}

impl ResolvedEngine {
    /// A resolved engine is never the `AUTO` request.
    pub open spec fn wf(&self) -> bool {
        self.engine != TTSEngine::AUTO
    }
}

/// The name of the executable of each engine. `AUTO` has none.
pub open spec fn bin_name(engine: TTSEngine) -> Seq<char> {
    match engine {
        TTSEngine::PICO2WAV => "pico2wave"@,
        TTSEngine::ESPEAK => "espeak"@,
        TTSEngine::ESPEAKNG => "espeak-ng"@,
        TTSEngine::AUTO => Seq::empty(),
    }
}

/// The engines to look for, in order of preference, when `requested` is
/// asked for.
pub open spec fn candidates_of(requested: TTSEngine) -> Seq<TTSEngine> {
    if requested == TTSEngine::AUTO {
        seq![TTSEngine::PICO2WAV, TTSEngine::ESPEAK, TTSEngine::ESPEAKNG]
    } else {
        seq![requested]
    }
}

/// Index of the first entry of a probe table that holds a path;
/// `found.len()` if none does.
pub open spec fn first_found(found: Seq<Option<Seq<char>>>) -> int
    decreases found.len(),
{
    if found.len() == 0 || found[0] is Some {
        0
    } else {
        1 + first_found(found.drop_first())
    }
}

/// The entries of a probe table that are looked at when `limit` candidates
/// are asked about.
pub open spec fn looked_at(found: Seq<Option<Seq<char>>>, limit: int) -> Seq<Option<Seq<char>>> {
    if found.len() <= limit {
        found
    } else {
        found.take(limit)
    }
}

/// What is said when no candidate for `requested` was found. It names every
/// candidate that was tried.
pub open spec fn missing_message(requested: TTSEngine) -> Seq<char> {
    if requested == TTSEngine::AUTO {
        "Cannot find any binary for implementing TTS in PATH: tried "@ + bin_name(
            TTSEngine::PICO2WAV,
        ) + ", "@ + bin_name(TTSEngine::ESPEAK) + ", "@ + bin_name(TTSEngine::ESPEAKNG)
    } else {
        "Cannot find TTS engine "@ + bin_name(requested) + " in PATH"@
    }
}

/// The engine that serves `requested`, given what was found: the first
/// candidate with an executable. Entries the table lacks count as not found;
/// entries beyond the candidates are not looked at.
pub open spec fn resolution(requested: TTSEngine, found: Seq<Option<Seq<char>>>) -> Result<
    ResolvedEngineView,
    NotifydErrorView,
> {
    let wanted = candidates_of(requested);
    let seen = looked_at(found, wanted.len() as int);
    let at = first_found(seen);
    if at < seen.len() {
        Ok(ResolvedEngineView { engine: wanted[at], path: seen[at]->0 })
    } else {
        Err(
            NotifydErrorView {
                kind: ErrorKind::StartupFatal,
                message: missing_message(requested),
            },
        )
    }
}

/// The locale for a `LANG` value: what stands in front of the first `.`, with
/// `_` written as `-`; `en-US` where no value is set.
pub open spec fn locale_of(lang: Option<Seq<char>>) -> Seq<char> {
    match lang {
        None => "en-US"@,
        Some(l) => replaced(before_first(l, '.'), '_', '-'),
    }
}

/// `first_found` is the one position that holds a path (or the end) and has
/// no path in front of it.
pub proof fn lemma_first_found(found: Seq<Option<Seq<char>>>, i: int)
    requires
        0 <= i <= found.len(),
        forall|j: int| 0 <= j < i ==> found[j] is None,
        i == found.len() || found[i] is Some,
    ensures
        first_found(found) == i,
    decreases found.len(),
{
    if found.len() == 0 || found[0] is Some {
    } else {
        let rest = found.drop_first();
        assert forall|j: int| 0 <= j < i - 1 implies rest[j] is None by {
            assert(rest[j] == found[j + 1]);
        }
        lemma_first_found(rest, i - 1);
    }
}

/// What `first_found` returns lies in `0..=len`, points at a path unless it
/// is the end, and has no path in front of it.
pub proof fn lemma_first_found_bounds(found: Seq<Option<Seq<char>>>)
    ensures
        0 <= first_found(found) <= found.len(),
        first_found(found) < found.len() ==> found[first_found(found)] is Some,
        forall|j: int| 0 <= j < first_found(found) ==> found[j] is None,
    decreases found.len(),
{
    if found.len() == 0 || found[0] is Some {
    } else {
        let rest = found.drop_first();
        lemma_first_found_bounds(rest);
        assert forall|j: int| 0 <= j < first_found(found) implies found[j] is None by {
            if j > 0 {
                assert(found[j] == rest[j - 1]);
            }
        }
    }
}

/// The name of the executable of `engine`.
pub fn tts_to_bin_name(engine: &TTSEngine) -> (name: &'static str)
    requires
        *engine != TTSEngine::AUTO,
    ensures
        name@ == bin_name(*engine),
{
    match engine {
        TTSEngine::PICO2WAV => "pico2wave",
        TTSEngine::ESPEAK => "espeak",
        _ => "espeak-ng",
    }
}

/// The engines to look for when `requested` is asked for, in the order in
/// which the probe table lists them.
pub fn engine_candidates(requested: TTSEngine) -> (list: Vec<TTSEngine>)
    ensures
        list@ == candidates_of(requested),
{
    let mut list: Vec<TTSEngine> = Vec::new();
    if requested == TTSEngine::AUTO {
        list.push(TTSEngine::PICO2WAV);
        list.push(TTSEngine::ESPEAK);
        list.push(TTSEngine::ESPEAKNG);
    } else {
        list.push(requested);
    }
    assert(list@ =~= candidates_of(requested));
    list
}

/// Where the first located entry among the first `limit` entries of `found`
/// stands; the number of entries looked at if none is located.
pub fn first_located(found: &Vec<Option<String>>, limit: usize) -> (at: usize)
    ensures
        at == first_found(looked_at(found.deep_view(), limit as int)),
        at <= looked_at(found.deep_view(), limit as int).len(),
        at <= limit,
        at <= found.len(),
        at < limit && at < found.len() ==> found[at as int] is Some,
{
    let n: usize = if limit <= found.len() {
        limit
    } else {
        found.len()
    };
    let ghost seen = looked_at(found.deep_view(), limit as int);
    assert(seen.len() == n);
    let mut i: usize = 0;
    while i < n
        invariant
            i <= n <= found.len(),
            n <= limit,
            seen == looked_at(found.deep_view(), limit as int),
            seen.len() == n,
            forall|j: int| 0 <= j < i ==> seen[j] is None,
        decreases n - i,
    {
        assert(seen[i as int] == found@[i as int].deep_view());
        if found[i].is_some() {
            proof {
                lemma_first_found(seen, i as int);
            }
            return i;
        }
        i += 1;
    }
    proof {
        lemma_first_found(seen, i as int);
    }
    i
}

/// The error for a request that found no engine.
fn missing_engine(requested: TTSEngine) -> (e: NotifydError)
    ensures
        e@ == (NotifydErrorView {
            kind: ErrorKind::StartupFatal,
            message: missing_message(requested),
        }),
{
    let mut text: String;
    if requested == TTSEngine::AUTO {
        text = "Cannot find any binary for implementing TTS in PATH: tried ".to_owned();
        text.append(tts_to_bin_name(&TTSEngine::PICO2WAV));
        text.append(", ");
        text.append(tts_to_bin_name(&TTSEngine::ESPEAK));
        text.append(", ");
        text.append(tts_to_bin_name(&TTSEngine::ESPEAKNG));
    } else {
        text = "Cannot find TTS engine ".to_owned();
        text.append(tts_to_bin_name(&requested));
        text.append(" in PATH");
    }
    NotifydError { kind: ErrorKind::StartupFatal, message: text }
}

/// Resolves `requested` against the probe table `found`, whose entries stand
/// in the order of `engine_candidates(requested)`.
pub fn resolve(requested: TTSEngine, found: &Vec<Option<String>>) -> (r: Result<
    ResolvedEngine,
    NotifydError,
>)
    ensures
        match r {
            Ok(e) => resolution(requested, found.deep_view()) == Ok::<
                ResolvedEngineView,
                NotifydErrorView,
            >(e@) && e.wf(),
            Err(e) => resolution(requested, found.deep_view()) == Err::<
                ResolvedEngineView,
                NotifydErrorView,
            >(e@),
        },
{
    let wanted = engine_candidates(requested);
    let at = first_located(found, wanted.len());
    if at < wanted.len() && at < found.len() {
        match &found[at] {
            Some(path) => {
                proof {
                    let seen = looked_at(found.deep_view(), wanted@.len() as int);
                    assert(seen[at as int] == found@[at as int].deep_view());
                    assert(seen[at as int] == Some(path@));
                    assert(wanted@[at as int] != TTSEngine::AUTO);
                }
                Ok(ResolvedEngine { engine: wanted[at], path: path.clone() })
            },
            None => Err(missing_engine(requested)),
        }
    } else {
        Err(missing_engine(requested))
    }
}

/// The engine that serves `requested`: `requested` itself if it is an engine
/// and was found, the first candidate that was found if it is `AUTO`.
pub fn look_for_candidate_engine(requested: TTSEngine, found: &Vec<Option<String>>) -> (r: Result<
    TTSEngine,
    NotifydError,
>)
    ensures
        match r {
            Ok(engine) => resolution(requested, found.deep_view()) is Ok && resolution(
                requested,
                found.deep_view(),
            )->Ok_0.engine == engine && engine != TTSEngine::AUTO,
            Err(e) => resolution(requested, found.deep_view()) == Err::<
                ResolvedEngineView,
                NotifydErrorView,
            >(e@),
        },
{
    match resolve(requested, found) {
        Ok(resolved) => Ok(resolved.engine),
        Err(e) => Err(e),
    }
}

/// The locale to synthesize in, from the value of `LANG` (`None` where the
/// variable is not set).
pub fn get_locale_from_env(lang: Option<&str>) -> (locale: String)
    ensures
        locale@ == locale_of(
            match lang {
                Some(l) => Some(l@),
                None => None,
            },
        ),
{
    match lang {
        None => "en-US".to_owned(),
        Some(l) => {
            let chars = chars_of(l);
            let stop = find_first(&chars, '.');
            proof {
                lemma_first_index_bounds(chars@, '.');
            }
            let mut locale = String::new();
            let mut i: usize = 0;
            while i < stop
                invariant
                    i <= stop <= chars.len(),
                    locale@ == replaced(chars@.take(i as int), '_', '-'),
                decreases stop - i,
            {
                let c = chars[i];
                locale.push(
                    if c == '_' {
                        '-'
                    } else {
                        c
                    },
                );
                i += 1;
                assert(locale@ =~= replaced(chars@.take(i as int), '_', '-'));
            }
            locale
        },
    }
}

} // verus!
