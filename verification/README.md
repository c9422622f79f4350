# sillytracker

A terminal music player for tracker modules (`.mod`) and common audio
formats. The decisions of the player are a verified library under `src/`;
the terminal, the audio device, the file system and the media hotkeys are
driven by the program under `app/`.

- `listing`: which directory entries are listed, in sorted order.
- `session`: the playlist of the current directory, its selection and the
  moving on at the end of a track.
- `browser`: moving the selection of the file browser.
- `playback`: the playing status, the metadata of the current track, module
  detection, stopping and the seek rules.
- `keys`: the key and hotkey bindings.
- `control`: what the player does on each command.
- `display`: the text shown on screen, the help line and the size warning.
- `layout`: the areas of the screen, as ratatui's layout solver splits them.

The module renderer produces floating-point samples and the volume is a
floating-point value, so both are handled in `app/`.
