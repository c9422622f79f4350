//! Verified core of a terminal music player for tracker modules and common
//! audio formats: the directory listing rules, the playlist and file-browser
//! navigation, the playback state, the seek rules, the key bindings and the
//! text shown on screen.

pub mod playback;
pub mod listing;
pub mod session;
pub mod browser;
pub mod keys;
pub mod display;
pub mod layout;
pub mod control;
