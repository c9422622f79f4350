use sillytracker::display::{
    display_title, help_labels, format_duration, playlist_marker, progress_label, progress_total, status_text,
    too_small, warning_area, Area,
};
use sillytracker::playback::PlayingStatus;

#[test]
fn durations_as_minutes_and_seconds() {
    assert_eq!(format_duration(0), "00:00");
    assert_eq!(format_duration(7), "00:07");
    assert_eq!(format_duration(59), "00:59");
    assert_eq!(format_duration(60), "01:00");
    assert_eq!(format_duration(65), "01:05");
    assert_eq!(format_duration(605), "10:05");
    assert_eq!(format_duration(3600), "60:00");
    assert_eq!(format_duration(6000), "100:00");
    assert_eq!(format_duration(u64::MAX), format!("{:02}:{:02}", u64::MAX / 60, u64::MAX % 60));
    for secs in [1u64, 9, 10, 11, 99, 100, 599, 123456] {
        assert_eq!(format_duration(secs), format!("{:02}:{:02}", secs / 60, secs % 60));
    }
}

#[test]
fn progress_text() {
    assert_eq!(progress_total(0), 1);
    assert_eq!(progress_total(185), 185);
    assert_eq!(progress_label(65, 185), "01:05 / 03:05");
    assert_eq!(progress_label(0, progress_total(0)), "00:00 / 00:01");
}

#[test]
fn status_words() {
    assert_eq!(status_text(PlayingStatus::Played), "Playing");
    assert_eq!(status_text(PlayingStatus::Paused), "Paused");
    assert_eq!(status_text(PlayingStatus::Stopped), "Stopped");
}

#[test]
fn title_falls_back_to_file_name() {
    assert_eq!(display_title(&String::new(), &"tune.mod".to_string()), "tune.mod");
    assert_eq!(display_title(&"Tune".to_string(), &"tune.mod".to_string()), "Tune");
}

#[test]
fn playlist_markers() {
    assert_eq!(playlist_marker(2, 2), "\u{25b6} ");
    assert_eq!(playlist_marker(1, 2), "  ");
}

#[test]
fn small_terminal_warning() {
    let a = Area { x: 0, y: 0, width: 80, height: 24 };
    assert!(!too_small(a));
    assert!(too_small(Area { width: 59, ..a }));
    assert!(too_small(Area { height: 19, ..a }));
    assert!(!too_small(Area { width: 60, height: 20, ..a }));
    assert_eq!(warning_area(Area { x: 0, y: 0, width: 50, height: 10 }), Area { x: 1, y: 1, width: 48, height: 8 });
    assert_eq!(warning_area(Area { x: 3, y: 4, width: 1, height: 0 }), Area { x: 4, y: 5, width: 0, height: 0 });
}

#[test]
fn help_line_labels() {
    let labels = help_labels();
    assert_eq!(labels.len(), 8);
    assert_eq!(labels[0], " Space [Pause/Play]    ");
    assert_eq!(labels[1], "s [Stop]    ");
    assert_eq!(labels[7], "l [Seek forward]    ");
    assert_eq!(labels.concat(), " Space [Pause/Play]    s [Stop]    Down [Volume Down]    Up [Volume Up]    h [Seek back]    j [Next]    k [Previous]    l [Seek forward]    ");
}
