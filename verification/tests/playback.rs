use sillytracker::playback::{
    is_module_file, plan_seek, toggle_transport, PlayingStatus, SeekPlan, Tags, Track,
    Transport,
};

#[test]
fn new_track_is_empty_and_stopped() {
    let t = Track::new();
    assert_eq!(t.title, "");
    assert_eq!(t.artist, "");
    assert_eq!(t.album, "");
    assert_eq!(t.duration, 0);
    assert_eq!(t.status, PlayingStatus::Stopped);
}

#[test]
fn toggle_pauses_and_resumes() {
    let mut t = Track::new();
    assert_eq!(t.toggle(), Transport::Resume);
    assert_eq!(t.status, PlayingStatus::Played);
    assert_eq!(t.toggle(), Transport::Pause);
    assert_eq!(t.status, PlayingStatus::Paused);
    assert_eq!(t.toggle(), Transport::Resume);
    assert_eq!(t.status, PlayingStatus::Played);
    assert_eq!(toggle_transport(PlayingStatus::Stopped), Transport::Resume);
}

#[test]
fn pause_then_resume() {
    let mut t = Track::new();
    t.pause();
    assert_eq!(t.status, PlayingStatus::Paused);
    t.resume();
    assert_eq!(t.status, PlayingStatus::Played);
}

#[test]
fn module_extension() {
    assert!(is_module_file("song.mod"));
    assert!(is_module_file("..mod"));
    assert!(is_module_file("a.b.mod"));
    assert!(!is_module_file(".mod"));
    assert!(!is_module_file("mod"));
    assert!(!is_module_file("song.MOD"));
    assert!(!is_module_file("song.mod.mp3"));
    assert!(!is_module_file("song.xmod"));
    assert!(!is_module_file(""));
    for name in ["song.mod", "..mod", ".mod", "a.mod.b", "x.mod", "song.MOD", "m\u{e9}.mod"] {
        let std_says = std::path::Path::new(name).extension().map(|e| e == "mod").unwrap_or(false);
        assert_eq!(is_module_file(name), std_says, "{}", name);
    }
}

#[test]
fn module_start_keeps_artist_and_album() {
    let mut t = Track::new();
    t.artist = "Someone".to_string();
    t.album = "Record".to_string();
    t.start_module("space_debris.mod".to_string(), 5_000_000_000);
    assert_eq!(t.title, "space_debris.mod");
    assert_eq!(t.artist, "Someone");
    assert_eq!(t.album, "Record");
    assert_eq!(t.duration, 5_000_000_000);
    assert_eq!(t.status, PlayingStatus::Played);
}

#[test]
fn tagged_start_replaces_present_tags() {
    let mut t = Track::new();
    t.title = "Old".to_string();
    t.artist = "Old artist".to_string();
    let tags = Tags { title: Some("New".to_string()), artist: None, album: Some("LP".to_string()) };
    t.start_tagged(Some(tags), 42);
    assert_eq!(t.title, "New");
    assert_eq!(t.artist, "Old artist");
    assert_eq!(t.album, "LP");
    assert_eq!(t.duration, 42);
    assert_eq!(t.status, PlayingStatus::Played);
}

#[test]
fn untagged_file_plays_and_keeps_fields() {
    let mut t = Track::new();
    t.title = "Before".to_string();
    t.duration = 7;
    t.start_tagged(None, 99);
    assert_eq!(t.title, "Before");
    assert_eq!(t.artist, "");
    assert_eq!(t.duration, 99);
    assert_eq!(t.status, PlayingStatus::Played);
}

#[test]
fn stop_sets_stopped_and_keeps_metadata() {
    let mut t = Track::new();
    t.start_module("a.mod".to_string(), 10);
    t.stop();
    assert_eq!(t.status, PlayingStatus::Stopped);
    assert_eq!(t.title, "a.mod");
    assert_eq!(t.duration, 10);
    assert_eq!(t.toggle(), Transport::Resume);
    assert_eq!(t.status, PlayingStatus::Played);
}

#[test]
fn error_shows_in_title() {
    let mut t = Track::new();
    t.show_error("No such file or directory (os error 2)");
    assert_eq!(t.title, "Error: No such file or directory (os error 2)");
}

const S: u128 = 1_000_000_000;

#[test]
fn seek_forward_inside_track() {
    assert_eq!(plan_seek(5 * S, 10 * S as i128, 60 * S), SeekPlan { restart: false, target: 15 * S });
}

#[test]
fn seek_forward_past_end_goes_to_end() {
    assert_eq!(plan_seek(55 * S, 10 * S as i128, 60 * S), SeekPlan { restart: false, target: 60 * S });
    assert_eq!(plan_seek(50 * S, 10 * S as i128, 60 * S), SeekPlan { restart: false, target: 60 * S });
}

#[test]
fn seek_backward_restarts() {
    assert_eq!(plan_seek(30 * S, -10 * S as i128, 60 * S), SeekPlan { restart: true, target: 20 * S });
    assert_eq!(plan_seek(10 * S, -10 * S as i128, 60 * S), SeekPlan { restart: true, target: 0 });
}

#[test]
fn seek_before_start_goes_to_first_second() {
    assert_eq!(plan_seek(3 * S, -10 * S as i128, 60 * S), SeekPlan { restart: true, target: S });
    assert_eq!(plan_seek(5 * S, -10 * S as i128, 100 * S), SeekPlan { restart: true, target: S });
    assert_eq!(plan_seek(S, -10 * S as i128, 60 * S), SeekPlan { restart: true, target: S });
}

#[test]
fn seek_back_under_a_second_stays_put() {
    // never forward: half a second in, a seek back stays at half a second
    assert_eq!(plan_seek(S / 2, -10 * S as i128, 60 * S), SeekPlan { restart: true, target: S / 2 });
    assert_eq!(plan_seek(0, -10 * S as i128, 60 * S), SeekPlan { restart: true, target: 0 });
}

#[test]
fn seek_backward_past_end_of_short_track() {
    // position beyond the (shorter) length after stepping back
    assert_eq!(plan_seek(80 * S, -10 * S as i128, 60 * S), SeekPlan { restart: true, target: 60 * S });
}
