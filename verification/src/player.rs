//! Local playback through an external player program.
//!
//! Which players are installed may change while the daemon runs, so they are
//! looked for anew for every sentence. As for the engines, the looking is the
//! caller's: it reports a table with one entry per candidate.

use vstd::prelude::*;
use crate::artifact::{TtsSentence, TtsSentenceView};
use crate::command::{check_run, run_failure, args3, Invocation, InvocationView, RunResult};
use crate::engine::{first_found, first_located, looked_at};
use crate::error::{ErrorKind, NotifydError, NotifydErrorView};

verus! {

/// The players to look for, in order of preference.
pub open spec fn player_candidates() -> Seq<Seq<char>> {
    seq!["paplay"@, "mplayer"@, "play"@]
}

/// What is said when no player was found for the file at `path`.
pub open spec fn no_player_message(path: Seq<char>) -> Seq<char> {
    "Could not find any player in [\"paplay\", \"mplayer\", \"play\"] to play "@ + path
}

/// The command that plays the file at `path` with `player`.
pub open spec fn player_command(player: Seq<char>, path: Seq<char>) -> InvocationView {
    InvocationView { program: player, args: seq![path] }
}

/// The command that plays `sentence`, given what was found: it runs the first
/// candidate that was located. With no player located, playback fails.
pub open spec fn player_choice(sentence: TtsSentenceView, found: Seq<Option<Seq<char>>>) -> Result<
    InvocationView,
    NotifydErrorView,
> {
    let seen = looked_at(found, player_candidates().len() as int);
    let at = first_found(seen);
    if at < seen.len() {
        Ok(player_command(seen[at]->0, sentence.path))
    } else {
        Err(
            NotifydErrorView {
                kind: ErrorKind::PlaybackFailure,
                message: no_player_message(sentence.path),
            },
        )
    }
}

/// What the end of a playback means: success, or a playback failure that
/// carries the diagnostic.
pub open spec fn playback_outcome(failure: Option<Seq<char>>) -> Result<(), NotifydErrorView> {
    match failure {
        None => Ok(()),
        Some(diagnostic) => Err(
            NotifydErrorView { kind: ErrorKind::PlaybackFailure, message: diagnostic },
        ),
    }
}

/// The diagnostic of a playback through the audio device that failed; `None`
/// for one that succeeded.
pub open spec fn device_failure(result: Result<(), String>) -> Option<Seq<char>> {
    match result {
        Ok(_) => None,
        Err(diagnostic) => Some(diagnostic@),
    }
}

/// The names of the players to look for, in the order in which the probe
/// table lists them.
pub fn candidate_players() -> (names: Vec<String>)
    ensures
        names.deep_view() == player_candidates(),
{
    args3("paplay", "mplayer", "play")
}

impl TtsSentence {
    /// The command that plays this sentence with the program `player`.
    pub fn run_player(&self, player: &str) -> (command: Invocation)
        ensures
            command@ == player_command(player@, self@.path),
    {
        let mut args: Vec<String> = Vec::new();
        args.push(self.path.clone());
        let command = Invocation { program: player.to_owned(), args };
        assert(command@.args =~= seq![self@.path]);
        command
    }

    /// The command that plays this sentence with the preferred player among
    /// those located in `found`.
    pub fn play_external(&self, found: &Vec<Option<String>>) -> (r: Result<Invocation, NotifydError>)
        ensures
            match r {
                Ok(command) => player_choice(self@, found.deep_view()) == Ok::<
                    InvocationView,
                    NotifydErrorView,
                >(command@),
                Err(e) => player_choice(self@, found.deep_view()) == Err::<
                    InvocationView,
                    NotifydErrorView,
                >(e@),
            },
    {
        let at = first_located(found, 3);
        assert(player_candidates().len() == 3);
        if at < 3 && at < found.len() {
            match &found[at] {
                Some(player) => {
                    proof {
                        let seen = looked_at(found.deep_view(), 3);
                        assert(seen[at as int] == found@[at as int].deep_view());
                    }
                    return Ok(self.run_player(player.as_str()));
                },
                None => {},
            }
        }
        let mut text =
            "Could not find any player in [\"paplay\", \"mplayer\", \"play\"] to play ".to_owned();
        text.append(self.path.as_str());
        Err(NotifydError { kind: ErrorKind::PlaybackFailure, message: text })
    }
}

/// Judges a run of a player program: a failed run is a playback failure that
/// carries the run's diagnostic.
pub fn player_finished(result: RunResult) -> (r: Result<(), NotifydError>)
    ensures
        match r {
            Ok(_) => playback_outcome(run_failure(result@)) is Ok,
            Err(e) => playback_outcome(run_failure(result@)) == Err::<(), NotifydErrorView>(e@),
        },
{
    check_run(result, ErrorKind::PlaybackFailure)
}

/// Judges playback through the audio device: `Err` holds the diagnostic of a
/// file that could not be decoded or played.
pub fn playback_finished(result: Result<(), String>) -> (r: Result<(), NotifydError>)
    ensures
        match r {
            Ok(_) => playback_outcome(device_failure(result)) is Ok,
            Err(e) => playback_outcome(device_failure(result)) == Err::<(), NotifydErrorView>(e@),
        },
{
    match result {
        Ok(_) => Ok(()),
        Err(diagnostic) => Err(NotifydError { kind: ErrorKind::PlaybackFailure, message: diagnostic }),
    }
}

} // verus!
