use sillytracker::listing::{list_visible, name_less, Entry};

fn file(name: &str) -> Entry {
    Entry { name: name.to_string(), is_dir: false }
}

fn dir(name: &str) -> Entry {
    Entry { name: name.to_string(), is_dir: true }
}

#[test]
fn listing_sorts_files() {
    let entries = vec![file("track3.mod"), file("a.mp3"), file("Zed.wav"), file("b.flac")];
    assert_eq!(
        list_visible(entries, false),
        vec!["Zed.wav", "a.mp3", "b.flac", "track3.mod"]
    );
}

#[test]
fn listing_hides_dot_files() {
    let entries = vec![file(".hidden"), file("song.ogg"), dir(".git")];
    assert_eq!(list_visible(entries, true), vec!["song.ogg"]);
}

#[test]
fn listing_leaves_out_directories_unless_asked() {
    let entries = vec![dir("music"), file("tune.mod"), dir("albums")];
    assert_eq!(list_visible(entries, false), vec!["tune.mod"]);
    let entries = vec![dir("music"), file("tune.mod"), dir("albums")];
    assert_eq!(list_visible(entries, true), vec!["albums", "music", "tune.mod"]);
}

#[test]
fn listing_of_empty_directory_is_empty() {
    assert_eq!(list_visible(Vec::new(), true), Vec::<String>::new());
}

#[test]
fn listing_orders_by_code_point() {
    let entries = vec![file("\u{e9}t\u{e9}.mp3"), file("zz.mp3"), file("ab"), file("a"), file("abc")];
    let names = list_visible(entries, false);
    assert_eq!(names, vec!["a", "ab", "abc", "zz.mp3", "\u{e9}t\u{e9}.mp3"]);
    let mut sorted = names.clone();
    sorted.sort();
    assert_eq!(names, sorted);
}

#[test]
fn listing_keeps_repeated_names() {
    let entries = vec![file("b"), file("a"), file("b")];
    assert_eq!(list_visible(entries, false), vec!["a", "b", "b"]);
}

#[test]
fn name_order_matches_str_order() {
    let cases = [("a", "b"), ("b", "a"), ("a", "a"), ("", "a"), ("a", ""), ("ab", "a"), ("Z", "a"), ("\u{e9}", "z")];
    for (a, b) in cases {
        assert_eq!(name_less(a, b), a < b, "{} < {}", a, b);
    }
}
