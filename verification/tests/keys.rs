use sillytracker::keys::{
    browser_command, hotkey_command, hotkey_for, player_command, seek_offset, BrowserCommand, Command,
    Hotkey, Key,
};

#[test]
fn player_keys() {
    assert_eq!(player_command(Key::Esc), Some(Command::Quit));
    assert_eq!(player_command(Key::Char('q')), Some(Command::Quit));
    assert_eq!(player_command(Key::Up), Some(Command::VolumeUp));
    assert_eq!(player_command(Key::Down), Some(Command::VolumeDown));
    assert_eq!(player_command(Key::Char(' ')), Some(Command::TogglePlayback));
    assert_eq!(player_command(Key::MediaPlayPause), Some(Command::TogglePlayback));
    assert_eq!(player_command(Key::Char('s')), Some(Command::Stop));
    assert_eq!(player_command(Key::MediaStop), Some(Command::Stop));
    assert_eq!(player_command(Key::Char('j')), Some(Command::Next));
    assert_eq!(player_command(Key::MediaTrackNext), Some(Command::Next));
    assert_eq!(player_command(Key::Char('k')), Some(Command::Previous));
    assert_eq!(player_command(Key::MediaTrackPrevious), Some(Command::Previous));
    assert_eq!(player_command(Key::Char('h')), Some(Command::SeekBackward));
    assert_eq!(player_command(Key::Char('l')), Some(Command::SeekForward));
    assert_eq!(player_command(Key::Char('Q')), None);
    assert_eq!(player_command(Key::Enter), None);
    assert_eq!(player_command(Key::Backspace), None);
    assert_eq!(player_command(Key::Other), None);
}

#[test]
fn hotkeys() {
    assert_eq!(hotkey_command(Hotkey::PlayPause), Command::TogglePlayback);
    assert_eq!(hotkey_command(Hotkey::Next), Command::Next);
    assert_eq!(hotkey_command(Hotkey::Previous), Command::Previous);
}

#[test]
fn browser_keys() {
    assert_eq!(browser_command(Key::Esc), Some(BrowserCommand::Quit));
    assert_eq!(browser_command(Key::Char('q')), Some(BrowserCommand::Quit));
    assert_eq!(browser_command(Key::Backspace), Some(BrowserCommand::Parent));
    assert_eq!(browser_command(Key::Enter), Some(BrowserCommand::Open));
    assert_eq!(browser_command(Key::Down), Some(BrowserCommand::Down));
    assert_eq!(browser_command(Key::Up), Some(BrowserCommand::Up));
    assert_eq!(browser_command(Key::Char('j')), None);
    assert_eq!(browser_command(Key::MediaPlayPause), None);
}

#[test]
fn seek_steps_are_ten_seconds() {
    assert_eq!(seek_offset(Command::SeekBackward), Some(-10_000_000_000));
    assert_eq!(seek_offset(Command::SeekForward), Some(10_000_000_000));
    assert_eq!(seek_offset(Command::Next), None);
}

#[test]
fn hotkey_events() {
    assert_eq!(hotkey_for(7, 7, 8, 9), Some(Hotkey::PlayPause));
    assert_eq!(hotkey_for(8, 7, 8, 9), Some(Hotkey::Next));
    assert_eq!(hotkey_for(9, 7, 8, 9), Some(Hotkey::Previous));
    assert_eq!(hotkey_for(1, 7, 8, 9), None);
    assert_eq!(hotkey_for(5, 5, 5, 5), Some(Hotkey::PlayPause));
}
