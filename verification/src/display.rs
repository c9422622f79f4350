use vstd::prelude::*;
use crate::keys::{Command, Key, player_binding};
use crate::playback::PlayingStatus;

verus! {

/// A rectangle of terminal cells.
#[derive(Clone, Copy, Debug, PartialEq, Eq, Structural)]
pub struct Area {
    pub x: u16,
    pub y: u16,
    pub width: u16,
    pub height: u16,
}

/// The smallest terminal, in columns and rows, that the player is laid out for.
pub const MIN_WIDTH: u16 = 60;

pub const MIN_HEIGHT: u16 = 20;

/// The decimal digit `d`.
pub open spec fn digit_char(d: int) -> char {
    if d == 0 {
        '0'
    } else if d == 1 {
        '1'
    } else if d == 2 {
        '2'
    } else if d == 3 {
        '3'
    } else if d == 4 {
        '4'
    } else if d == 5 {
        '5'
    } else if d == 6 {
        '6'
    } else if d == 7 {
        '7'
    } else if d == 8 {
        '8'
    } else {
        '9'
    }
}

/// `n` written in decimal, without leading zeros.
pub open spec fn decimal(n: nat) -> Seq<char>
    decreases n,
{
    if n < 10 {
        seq![digit_char(n as int)]
    } else {
        decimal(n / 10).push(digit_char((n % 10) as int))
    }
}

/// `n` written in decimal with at least two digits.
pub open spec fn two_digits(n: nat) -> Seq<char> {
    if n < 10 {
        seq!['0', digit_char(n as int)]
    } else {
        decimal(n)
    }
}

/// A number of seconds as `MM:SS`: minutes and remaining seconds, each in
/// at least two digits.
pub open spec fn clock_text(secs: nat) -> Seq<char> {
    two_digits(secs / 60) + seq![':'] + two_digits(secs % 60)
}

/// A decimal number has at least one digit.
pub proof fn lemma_decimal_nonempty(n: nat)
    ensures
        decimal(n).len() >= 1,
    decreases n,
{
    if n >= 10 {
        lemma_decimal_nonempty(n / 10);
    }
}

/// The minutes take at least two digits and the seconds after the colon
/// exactly two.
pub proof fn lemma_clock_digits(secs: nat)
    ensures
        two_digits(secs / 60).len() >= 2,
        two_digits(secs % 60).len() == 2,
        clock_text(secs)[clock_text(secs).len() - 3] == ':',
{
    let m = secs / 60;
    if m >= 10 {
        lemma_decimal_nonempty(m / 10);
    }
    let r = secs % 60;
    if r >= 10 {
        assert(decimal(r / 10) == seq![digit_char((r / 10) as int)]);
    }
}

/// The keys that the help line names, in its order, with the command each
/// one is described as doing.
pub open spec fn help_bindings() -> Seq<(Key, Command)> {
    seq![
        (Key::Char(' '), Command::TogglePlayback),
        (Key::Char('s'), Command::Stop),
        (Key::Down, Command::VolumeDown),
        (Key::Up, Command::VolumeUp),
        (Key::Char('h'), Command::SeekBackward),
        (Key::Char('j'), Command::Next),
        (Key::Char('k'), Command::Previous),
        (Key::Char('l'), Command::SeekForward),
    ]
}

/// The labels of the help line, one per entry of `help_bindings`.
pub open spec fn help_texts() -> Seq<Seq<char>> {
    seq![
        " Space [Pause/Play]    "@,
        "s [Stop]    "@,
        "Down [Volume Down]    "@,
        "Up [Volume Up]    "@,
        "h [Seek back]    "@,
        "j [Next]    "@,
        "k [Previous]    "@,
        "l [Seek forward]    "@,
    ]
}

/// The help line tells the truth: every key it names is bound to the
/// command it describes.
pub proof fn lemma_help_matches_bindings()
    ensures
        forall|i: int|
            0 <= i < help_bindings().len() ==> player_binding(#[trigger] help_bindings()[i].0)
                == Some(help_bindings()[i].1),
{
}

/// The labels of the help line, in order.
pub fn help_labels() -> (labels: Vec<&'static str>)
    ensures
        labels@.len() == help_texts().len(),
        forall|i: int| 0 <= i < labels@.len() ==> (#[trigger] labels@[i])@ == help_texts()[i],
{
    let labels = vec![
        " Space [Pause/Play]    ",
        "s [Stop]    ",
        "Down [Volume Down]    ",
        "Up [Volume Up]    ",
        "h [Seek back]    ",
        "j [Next]    ",
        "k [Previous]    ",
        "l [Seek forward]    ",
    ];
    assert(labels@.len() == 8);
    labels
}

/// The one-character text of a decimal digit.
fn digit_text(d: u64) -> (s: &'static str)
    requires
        d < 10,
    ensures
        s@ == seq![digit_char(d as int)],
{
    if d == 0 {
        proof { reveal_strlit("0"); }
        "0"
    } else if d == 1 {
        proof { reveal_strlit("1"); }
        "1"
    } else if d == 2 {
        proof { reveal_strlit("2"); }
        "2"
    } else if d == 3 {
        proof { reveal_strlit("3"); }
        "3"
    } else if d == 4 {
        proof { reveal_strlit("4"); }
        "4"
    } else if d == 5 {
        proof { reveal_strlit("5"); }
        "5"
    } else if d == 6 {
        proof { reveal_strlit("6"); }
        "6"
    } else if d == 7 {
        proof { reveal_strlit("7"); }
        "7"
    } else if d == 8 {
        proof { reveal_strlit("8"); }
        "8"
    } else {
        proof { reveal_strlit("9"); }
        "9"
    }
}

/// Appends `n` in decimal.
fn push_decimal(out: &mut String, n: u64)
    ensures
        final(out)@ == old(out)@ + decimal(n as nat),
    decreases n,
{
    if n >= 10 {
        push_decimal(out, n / 10);
    }
    out.append(digit_text(n % 10));
    assert(final(out)@ =~= old(out)@ + decimal(n as nat)) by {
        if n >= 10 {
            assert(decimal(n as nat) == decimal((n / 10) as nat).push(digit_char((n % 10) as int)));
        }
    }
}

/// Appends `n` in decimal with at least two digits.
fn push_two_digits(out: &mut String, n: u64)
    ensures
        final(out)@ == old(out)@ + two_digits(n as nat),
{
    if n < 10 {
        proof { reveal_strlit("0"); }
        out.append("0");
        out.append(digit_text(n));
        assert(final(out)@ =~= old(out)@ + two_digits(n as nat));
    } else {
        push_decimal(out, n);
    }
}

/// Formats seconds as `MM:SS`: the whole minutes and the remaining seconds,
/// each in at least two digits, with a colon between them.
pub fn format_duration(secs: u64) -> (s: String)
    ensures
        s@ == clock_text(secs as nat),
{
    let mut s = String::new();
    push_two_digits(&mut s, secs / 60);
    proof { reveal_strlit(":"); }
    s.append(":");
    push_two_digits(&mut s, secs % 60);
    assert(s@ =~= clock_text(secs as nat));
    s
}

/// The length shown under the progress bar: at least one second.
pub fn progress_total(duration_secs: u64) -> (total: u64)
    ensures
        total == if duration_secs >= 1 {
            duration_secs
        } else {
            1
        },
{
    if duration_secs >= 1 {
        duration_secs
    } else {
        1
    }
}

/// The text on the progress bar: position and length as `MM:SS / MM:SS`.
pub fn progress_label(position_secs: u64, total_secs: u64) -> (s: String)
    ensures
        s@ == clock_text(position_secs as nat) + " / "@ + clock_text(total_secs as nat),
{
    let mut s = format_duration(position_secs);
    s.append(" / ");
    let total = format_duration(total_secs);
    s.append(total.as_str());
    s
}

/// The word that shows the playback status.
pub fn status_text(status: PlayingStatus) -> (s: &'static str)
    ensures
        status == PlayingStatus::Played ==> s@ == "Playing"@,
        status == PlayingStatus::Paused ==> s@ == "Paused"@,
        status == PlayingStatus::Stopped ==> s@ == "Stopped"@,
{
    match status {
        PlayingStatus::Played => "Playing",
        PlayingStatus::Paused => "Paused",
        PlayingStatus::Stopped => "Stopped",
    }
}

/// The title shown for the current track: its title, or its file name when
/// the title is empty.
pub fn display_title(title: &String, file_name: &String) -> (s: String)
    ensures
        s@ == if title@.len() == 0 {
            file_name@
        } else {
            title@
        },
{
    if title.as_str().is_empty() {
        file_name.clone()
    } else {
        title.clone()
    }
}

/// The mark in front of a playlist entry: an arrow at the selected one,
/// blanks at the others.
pub fn playlist_marker(index: usize, selected: usize) -> (s: &'static str)
    ensures
        index == selected ==> s@ == "\u{25b6} "@,
        index != selected ==> s@ == "  "@,
{
    if index == selected {
        "\u{25b6} "
    } else {
        "  "
    }
}

/// Whether the terminal is too small for the layout, so that a warning is
/// drawn over it.
pub fn too_small(area: Area) -> (r: bool)
    ensures
        r == (area.width < MIN_WIDTH || area.height < MIN_HEIGHT),
{
    area.width < MIN_WIDTH || area.height < MIN_HEIGHT
}

/// Where the size warning is drawn: one cell in from the top left corner,
/// two cells narrower and lower, down to nothing.
pub fn warning_area(area: Area) -> (w: Area)
    requires
        area.x < u16::MAX,
        area.y < u16::MAX,
    ensures
        w.x == area.x + 1,
        w.y == area.y + 1,
        w.width == if area.width >= 2 {
            area.width - 2
        } else {
            0
        },
        w.height == if area.height >= 2 {
            area.height - 2
        } else {
            0
        },
{
    Area {
        x: area.x + 1,
        y: area.y + 1,
        width: if area.width >= 2 {
            area.width - 2
        } else {
            0
        },
        height: if area.height >= 2 {
            area.height - 2
        } else {
            0
        },
    }
}

} // verus!
