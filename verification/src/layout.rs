use vstd::prelude::*;
use ratatui::layout::{Constraint, Direction, Layout, Rect};
use crate::display::Area;

verus! {

/// The direction in which an area is split.
#[derive(Clone, Copy, Debug, PartialEq, Eq, Structural)]
pub enum Axis {
    Vertical,
    Horizontal,
}

/// The size asked of one part of a split: at least so many cells, exactly
/// so many cells, or a percentage of the whole.
#[derive(Clone, Copy, Debug, PartialEq, Eq, Structural)]
pub enum Size {
    Min(u16),
    Length(u16),
    Percentage(u16),
}

/// The areas of the player's screen.
#[derive(Clone, Copy, Debug, PartialEq, Eq, Structural)]
pub struct Screen {
    pub playlist: Area,
    pub now_playing: Area,
    pub progress: Area,
    pub status: Area,
    pub volume: Area,
    pub help: Area,
}

/// `n`, bounded by the largest `u16`.
pub open spec fn saturate(n: int) -> int {
    if n > u16::MAX {
        u16::MAX as int
    } else {
        n
    }
}

/// `area` with `margin` cells taken off each side; nothing is left when the
/// margins do not fit.
pub open spec fn shrunk(area: Area, margin: u16) -> Area {
    let double = saturate(2 * margin);
    if area.width < double || area.height < double {
        Area { x: 0, y: 0, width: 0, height: 0 }
    } else {
        Area {
            x: saturate(area.x + margin) as u16,
            y: saturate(area.y + margin) as u16,
            width: (area.width - double) as u16,
            height: (area.height - double) as u16,
        }
    }
}

/// `part` lies inside `outer`.
pub open spec fn within(part: Area, outer: Area) -> bool {
    &&& outer.x <= part.x
    &&& part.x + part.width <= outer.x + outer.width
    &&& outer.y <= part.y
    &&& part.y + part.height <= outer.y + outer.height
}

/// `part` is a piece of `inner` cut along `axis`: it spans `inner` across
/// the axis and lies inside it along the axis.
pub open spec fn part_of(part: Area, inner: Area, axis: Axis) -> bool {
    match axis {
        Axis::Vertical => {
            &&& part.x == inner.x
            &&& part.width == inner.width
            &&& inner.y <= part.y
            &&& part.y + part.height <= saturate(inner.y + inner.height)
        },
        Axis::Horizontal => {
            &&& part.y == inner.y
            &&& part.height == inner.height
            &&& inner.x <= part.x
            &&& part.x + part.width <= saturate(inner.x + inner.width)
        },
    }
}

/// `areas` is one outcome that ratatui's layout solver can give when it
/// splits `area` along `axis`, inside a margin of `margin` cells, for the
/// sizes `sizes`. The solver need not give the same outcome every time.
pub uninterp spec fn solver_split(
    axis: Axis,
    margin: u16,
    sizes: Seq<Size>,
    area: Area,
    areas: Seq<Area>,
) -> bool;

/// Splits `area` along `axis` into one part per size with ratatui's layout
/// solver (`ratatui::layout::Layout::split` on a default layout with this
/// direction, margin and constraints). The parts are an outcome of the
/// solver for exactly these arguments; each spans the area shrunk by the
/// margin across the axis and lies inside it along the axis; how the solver
/// shares the length among the parts is left open.
#[verifier::external_body]
fn split(axis: Axis, margin: u16, sizes: &Vec<Size>, area: Area) -> (areas: Vec<Area>)
    ensures
        solver_split(axis, margin, sizes@, area, areas@),
        areas@.len() == sizes@.len(),
        forall|i: int| 0 <= i < areas@.len() ==> part_of(#[trigger] areas@[i], shrunk(area, margin), axis),
{
    let direction = match axis {
        Axis::Vertical => Direction::Vertical,
        Axis::Horizontal => Direction::Horizontal,
    };
    let constraints = sizes.iter().map(|s| match s {
        Size::Min(n) => Constraint::Min(*n),
        Size::Length(n) => Constraint::Length(*n),
        Size::Percentage(n) => Constraint::Percentage(*n),
    });
    let rect = Rect { x: area.x, y: area.y, width: area.width, height: area.height };
    let rects = Layout::default().direction(direction).margin(margin).constraints(constraints).split(rect);
    rects.iter().map(|r| Area { x: r.x, y: r.y, width: r.width, height: r.height }).collect()
}

/// The rows of the screen: the main area of at least ten rows, the
/// controls and the help, three rows each.
pub open spec fn row_sizes() -> Seq<Size> {
    seq![Size::Min(10), Size::Length(3), Size::Length(3)]
}

/// The main row: the playlist on 70% of the width, what is playing on 30%.
pub open spec fn main_sizes() -> Seq<Size> {
    seq![Size::Percentage(70), Size::Percentage(30)]
}

/// The controls row: progress on half the width, status and volume on a
/// quarter each.
pub open spec fn control_sizes() -> Seq<Size> {
    seq![Size::Percentage(50), Size::Percentage(25), Size::Percentage(25)]
}

/// `s` is a screen that the solver can lay out on `area`: the rows are split
/// off inside a one-cell margin, the main row is split into playlist and
/// now playing, the controls row into progress, status and volume, and the
/// last row is the help.
pub open spec fn laid_out(area: Area, s: Screen) -> bool {
    exists|rows: Seq<Area>, main: Seq<Area>, controls: Seq<Area>|
        {
            &&& solver_split(Axis::Vertical, 1, row_sizes(), area, rows)
            &&& rows.len() == 3
            &&& solver_split(Axis::Horizontal, 0, main_sizes(), rows[0], main)
            &&& main.len() == 2
            &&& solver_split(Axis::Horizontal, 0, control_sizes(), rows[1], controls)
            &&& controls.len() == 3
            &&& s.playlist == main[0]
            &&& s.now_playing == main[1]
            &&& s.progress == controls[0]
            &&& s.status == controls[1]
            &&& s.volume == controls[2]
            &&& s.help == rows[2]
        }
}

impl Screen {
    /// The screen's areas from its three splits: the rows (main area,
    /// controls, help), the columns of the main area (playlist, now
    /// playing) and those of the controls (progress, status, volume).
    pub fn from_splits(rows: &Vec<Area>, main: &Vec<Area>, controls: &Vec<Area>) -> (s: Screen)
        requires
            rows.len() == 3,
            main.len() == 2,
            controls.len() == 3,
        ensures
            s.playlist == main@[0],
            s.now_playing == main@[1],
            s.progress == controls@[0],
            s.status == controls@[1],
            s.volume == controls@[2],
            s.help == rows@[2],
    {
        Screen {
            playlist: main[0],
            now_playing: main[1],
            progress: controls[0],
            status: controls[1],
            volume: controls[2],
            help: rows[2],
        }
    }
}

/// Lays out the player's screen on `area`: inside a one-cell margin, a main
/// row (playlist on 70% of the width, what is playing on 30%), a row of
/// controls (progress on half, status and volume on a quarter each) and a
/// row of help, as the layout solver shares the rows out (`laid_out`: the
/// solver is asked for exactly these splits). Every area lies inside the
/// margin, the areas of one row share their top and height, and the help
/// spans the full width inside the margin.
pub fn screen_layout(area: Area) -> (s: Screen)
    ensures
        laid_out(area, s),
        within(s.playlist, shrunk(area, 1)),
        within(s.now_playing, shrunk(area, 1)),
        within(s.progress, shrunk(area, 1)),
        within(s.status, shrunk(area, 1)),
        within(s.volume, shrunk(area, 1)),
        within(s.help, shrunk(area, 1)),
        s.now_playing.y == s.playlist.y && s.now_playing.height == s.playlist.height,
        s.status.y == s.progress.y && s.status.height == s.progress.height,
        s.volume.y == s.progress.y && s.volume.height == s.progress.height,
        s.help.x == shrunk(area, 1).x && s.help.width == shrunk(area, 1).width,
{
    let rows_wanted = vec![Size::Min(10), Size::Length(3), Size::Length(3)];
    assert(rows_wanted@ =~= row_sizes());
    let rows = split(Axis::Vertical, 1, &rows_wanted, area);
    let mains_wanted = vec![Size::Percentage(70), Size::Percentage(30)];
    assert(mains_wanted@ =~= main_sizes());
    let main = split(Axis::Horizontal, 0, &mains_wanted, rows[0]);
    let controls_wanted = vec![Size::Percentage(50), Size::Percentage(25), Size::Percentage(25)];
    assert(controls_wanted@ =~= control_sizes());
    let controls = split(Axis::Horizontal, 0, &controls_wanted, rows[1]);
    let ghost inner = shrunk(area, 1);
    assert(part_of(rows@[0], inner, Axis::Vertical));
    assert(part_of(rows@[1], inner, Axis::Vertical));
    assert(part_of(rows@[2], inner, Axis::Vertical));
    assert(shrunk(rows@[0], 0) == rows@[0]);
    assert(shrunk(rows@[1], 0) == rows@[1]);
    assert(part_of(main@[0], rows@[0], Axis::Horizontal));
    assert(part_of(main@[1], rows@[0], Axis::Horizontal));
    assert(part_of(controls@[0], rows@[1], Axis::Horizontal));
    assert(part_of(controls@[1], rows@[1], Axis::Horizontal));
    assert(part_of(controls@[2], rows@[1], Axis::Horizontal));
    let s = Screen::from_splits(&rows, &main, &controls);
    assert(laid_out(area, s));
    s
}

} // verus!
