use vstd::prelude::*;
use crate::keys::{Command, SEEK_STEP_NANOS};
use crate::playback::PlayingStatus;
use crate::session::{Session, next_index, previous_index};

verus! {

/// What the player has to do on a command, once the session has taken it.
#[derive(Clone, Copy, Debug, PartialEq, Eq, Structural)]
pub enum Action {
    Quit,
    VolumeUp,
    VolumeDown,
    Pause,
    Resume,
    Stop,
    /// Load the selected entry of the playlist.
    Load,
    /// Seek by so many nanoseconds.
    Seek(i128),
}

/// Takes a command: the next and previous commands move the selection (and
/// the selected entry is to be loaded), a play/pause toggle pauses a
/// playing track and resumes any other, and the other commands pass on to
/// the output. A playlist without entries has nothing to load.
pub fn step(session: &mut Session, status: PlayingStatus, command: Command) -> (a: Action)
    requires
        old(session).wf(),
        command == Command::Next || command == Command::Previous ==> old(session).playlist.len()
            > 0,
    ensures
        final(session).wf(),
        final(session).playlist == old(session).playlist,
        final(session).error == old(session).error,
        command == Command::Next ==> a == Action::Load && final(session).selected == next_index(
            old(session).selected as int,
            old(session).playlist.len() as int,
        ),
        command == Command::Previous ==> a == Action::Load && final(session).selected
            == previous_index(old(session).selected as int, old(session).playlist.len() as int),
        command != Command::Next && command != Command::Previous ==> final(session).selected
            == old(session).selected,
        command == Command::Quit ==> a == Action::Quit,
        command == Command::VolumeUp ==> a == Action::VolumeUp,
        command == Command::VolumeDown ==> a == Action::VolumeDown,
        command == Command::TogglePlayback ==> a == (if status == PlayingStatus::Played {
            Action::Pause
        } else {
            Action::Resume
        }),
        command == Command::Stop ==> a == Action::Stop,
        command == Command::SeekBackward ==> (a matches Action::Seek(o) && o == -SEEK_STEP_NANOS),
        command == Command::SeekForward ==> a == Action::Seek(SEEK_STEP_NANOS),
{
    match command {
        Command::Quit => Action::Quit,
        Command::VolumeUp => Action::VolumeUp,
        Command::VolumeDown => Action::VolumeDown,
        Command::TogglePlayback => match status {
            PlayingStatus::Played => Action::Pause,
            _ => Action::Resume,
        },
        Command::Stop => Action::Stop,
        Command::Next => {
            session.select_next();
            Action::Load
        },
        Command::Previous => {
            session.select_previous();
            Action::Load
        },
        Command::SeekBackward => Action::Seek(-SEEK_STEP_NANOS),
        Command::SeekForward => Action::Seek(SEEK_STEP_NANOS),
    }
}

} // verus!
