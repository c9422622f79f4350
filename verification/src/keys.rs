use vstd::prelude::*;

verus! {

/// A key press, as far as the player and the file browser tell keys apart.
#[derive(Clone, Copy, Debug, PartialEq, Eq, Structural)]
pub enum Key {
    Esc,
    Enter,
    Backspace,
    Up,
    Down,
    Char(char),
    MediaPlayPause,
    MediaTrackNext,
    MediaTrackPrevious,
    MediaStop,
    Other,
}

/// A global media hotkey registered by the player.
#[derive(Clone, Copy, Debug, PartialEq, Eq, Structural)]
pub enum Hotkey {
    PlayPause,
    Next,
    Previous,
}

/// What the player does on a key.
#[derive(Clone, Copy, Debug, PartialEq, Eq, Structural)]
pub enum Command {
    Quit,
    VolumeUp,
    VolumeDown,
    TogglePlayback,
    Stop,
    Next,
    Previous,
    SeekBackward,
    SeekForward,
}

/// What the file browser does on a key.
#[derive(Clone, Copy, Debug, PartialEq, Eq, Structural)]
pub enum BrowserCommand {
    Quit,
    Parent,
    Open,
    Down,
    Up,
}

/// How far, in nanoseconds, a seek key moves within the track.
pub const SEEK_STEP_NANOS: i128 = 10_000_000_000;

/// The player's key bindings: Esc or q quits, Up and Down change the volume,
/// Space or the play/pause media key toggles playback, s or the stop media
/// key stops it, j or the next-track media key plays the next track, k or
/// the previous-track media key the previous one, h seeks back and l seeks
/// forward.
pub open spec fn player_binding(key: Key) -> Option<Command> {
    match key {
        Key::Esc => Some(Command::Quit),
        Key::Char('q') => Some(Command::Quit),
        Key::Up => Some(Command::VolumeUp),
        Key::Down => Some(Command::VolumeDown),
        Key::Char(' ') => Some(Command::TogglePlayback),
        Key::MediaPlayPause => Some(Command::TogglePlayback),
        Key::Char('s') => Some(Command::Stop),
        Key::MediaStop => Some(Command::Stop),
        Key::Char('j') => Some(Command::Next),
        Key::MediaTrackNext => Some(Command::Next),
        Key::Char('k') => Some(Command::Previous),
        Key::MediaTrackPrevious => Some(Command::Previous),
        Key::Char('h') => Some(Command::SeekBackward),
        Key::Char('l') => Some(Command::SeekForward),
        _ => None,
    }
}

/// The file browser's key bindings: Esc or q quits, Backspace goes to the
/// parent directory, Enter opens the selected entry, Down and Up move the
/// selection.
pub open spec fn browser_binding(key: Key) -> Option<BrowserCommand> {
    match key {
        Key::Esc => Some(BrowserCommand::Quit),
        Key::Char('q') => Some(BrowserCommand::Quit),
        Key::Backspace => Some(BrowserCommand::Parent),
        Key::Enter => Some(BrowserCommand::Open),
        Key::Down => Some(BrowserCommand::Down),
        Key::Up => Some(BrowserCommand::Up),
        _ => None,
    }
}

/// The player command bound to a key, if any.
pub fn player_command(key: Key) -> (c: Option<Command>)
    ensures
        c == player_binding(key),
{
    match key {
        Key::Esc => Some(Command::Quit),
        Key::Up => Some(Command::VolumeUp),
        Key::Down => Some(Command::VolumeDown),
        Key::MediaPlayPause => Some(Command::TogglePlayback),
        Key::MediaStop => Some(Command::Stop),
        Key::MediaTrackNext => Some(Command::Next),
        Key::MediaTrackPrevious => Some(Command::Previous),
        Key::Char(c) => {
            if c == 'q' {
                Some(Command::Quit)
            } else if c == ' ' {
                Some(Command::TogglePlayback)
            } else if c == 's' {
                Some(Command::Stop)
            } else if c == 'j' {
                Some(Command::Next)
            } else if c == 'k' {
                Some(Command::Previous)
            } else if c == 'h' {
                Some(Command::SeekBackward)
            } else if c == 'l' {
                Some(Command::SeekForward)
            } else {
                None
            }
        },
        _ => None,
    }
}

/// The player command of a global media hotkey.
pub fn hotkey_command(hotkey: Hotkey) -> (c: Command)
    ensures
        c == match hotkey {
            Hotkey::PlayPause => Command::TogglePlayback,
            Hotkey::Next => Command::Next,
            Hotkey::Previous => Command::Previous,
        },
{
    match hotkey {
        Hotkey::PlayPause => Command::TogglePlayback,
        Hotkey::Next => Command::Next,
        Hotkey::Previous => Command::Previous,
    }
}

/// Which registered hotkey an event came from, given the event's id and the
/// ids of the play/pause, next and previous hotkeys, tried in that order.
pub fn hotkey_for(event_id: u32, play_pause_id: u32, next_id: u32, previous_id: u32) -> (h:
    Option<Hotkey>)
    ensures
        h == if event_id == play_pause_id {
            Some(Hotkey::PlayPause)
        } else if event_id == next_id {
            Some(Hotkey::Next)
        } else if event_id == previous_id {
            Some(Hotkey::Previous)
        } else {
            None
        },
{
    if event_id == play_pause_id {
        Some(Hotkey::PlayPause)
    } else if event_id == next_id {
        Some(Hotkey::Next)
    } else if event_id == previous_id {
        Some(Hotkey::Previous)
    } else {
        None
    }
}

/// The browser command bound to a key, if any.
pub fn browser_command(key: Key) -> (c: Option<BrowserCommand>)
    ensures
        c == browser_binding(key),
{
    match key {
        Key::Esc => Some(BrowserCommand::Quit),
        Key::Char(c) => if c == 'q' {
            Some(BrowserCommand::Quit)
        } else {
            None
        },
        Key::Backspace => Some(BrowserCommand::Parent),
        Key::Enter => Some(BrowserCommand::Open),
        Key::Down => Some(BrowserCommand::Down),
        Key::Up => Some(BrowserCommand::Up),
        _ => None,
    }
}

/// The seek offset, in nanoseconds, of a seek command.
pub fn seek_offset(command: Command) -> (offset: Option<i128>)
    ensures
        command == Command::SeekBackward ==> (offset matches Some(o) && o == -SEEK_STEP_NANOS),
        command == Command::SeekForward ==> offset == Some(SEEK_STEP_NANOS),
        command != Command::SeekBackward && command != Command::SeekForward ==> offset is None,
{
    match command {
        Command::SeekBackward => Some(-SEEK_STEP_NANOS),
        Command::SeekForward => Some(SEEK_STEP_NANOS),
        _ => None,
    }
}

} // verus!
