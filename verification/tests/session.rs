use sillytracker::session::Session;

fn names(v: &[&str]) -> Vec<String> {
    v.iter().map(|s| s.to_string()).collect()
}

#[test]
fn session_starts_on_current_file() {
    let s = Session::new(names(&["a.mod", "b.mod", "c.mod"]), &"b.mod".to_string());
    assert_eq!(s.selected, 1);
    assert!(!s.error);
}

#[test]
fn session_starts_on_first_entry_when_file_is_missing() {
    let s = Session::new(names(&["a.mod", "b.mod"]), &".hidden.mod".to_string());
    assert_eq!(s.selected, 0);
    let s = Session::new(Vec::new(), &"x".to_string());
    assert_eq!(s.selected, 0);
}

#[test]
fn session_starts_on_first_of_repeated_names() {
    let s = Session::new(names(&["x", "y", "y"]), &"y".to_string());
    assert_eq!(s.selected, 1);
}

#[test]
fn next_wraps_to_first() {
    let mut s = Session::new(names(&["a", "b", "c"]), &"c".to_string());
    s.select_next();
    assert_eq!(s.selected, 0);
    s.select_next();
    assert_eq!(s.selected, 1);
    assert_eq!(s.current(), "b");
}

#[test]
fn previous_wraps_to_last() {
    let mut s = Session::new(names(&["a", "b", "c"]), &"a".to_string());
    s.select_previous();
    assert_eq!(s.selected, 2);
    s.select_previous();
    assert_eq!(s.selected, 1);
}

#[test]
fn next_then_previous_returns() {
    for start in ["a", "b", "c", "d"] {
        let mut s = Session::new(names(&["a", "b", "c", "d"]), &start.to_string());
        let before = s.selected;
        s.select_next();
        s.select_previous();
        assert_eq!(s.selected, before);
        s.select_previous();
        s.select_next();
        assert_eq!(s.selected, before);
    }
}

#[test]
fn full_cycle_returns_to_start() {
    let mut s = Session::new(names(&["a", "b", "c", "d", "e"]), &"d".to_string());
    for _ in 0..5 {
        s.select_next();
    }
    assert_eq!(s.selected, 3);
}

#[test]
fn next_in_empty_playlist_stays_at_zero() {
    let mut s = Session::new(Vec::new(), &"x".to_string());
    s.select_next();
    assert_eq!(s.selected, 0);
}

#[test]
fn advance_once_track_is_finished() {
    let mut s = Session::new(names(&["a", "b"]), &"a".to_string());
    // 10 s track, position 9.95 s: within the 0.1 s margin
    assert!(s.auto_advance(9_950_000_000, 10_000_000_000));
    assert_eq!(s.selected, 1);
    // position 9.8 s: not yet
    assert!(!s.auto_advance(9_800_000_000, 10_000_000_000));
    assert_eq!(s.selected, 1);
    // exactly 0.1 s before the end counts as finished
    assert!(s.auto_advance(9_900_000_000, 10_000_000_000));
    assert_eq!(s.selected, 0);
}

#[test]
fn no_advance_after_failed_load() {
    let mut s = Session::new(names(&["a", "b"]), &"a".to_string());
    s.record_load(false);
    assert!(s.error);
    assert!(!s.should_advance(20_000_000_000, 10_000_000_000));
    assert!(!s.auto_advance(20_000_000_000, 10_000_000_000));
    assert_eq!(s.selected, 0);
    s.record_load(true);
    assert!(!s.error);
    assert!(s.should_advance(20_000_000_000, 10_000_000_000));
}

#[test]
fn zero_length_track_is_finished() {
    let s = Session::new(names(&["a"]), &"a".to_string());
    assert!(s.should_advance(0, 0));
}
