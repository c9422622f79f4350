use ratatui::layout::{Constraint, Direction, Layout, Rect};
use sillytracker::display::Area;
use sillytracker::layout::screen_layout;

fn area(r: Rect) -> Area {
    Area { x: r.x, y: r.y, width: r.width, height: r.height }
}

#[test]
fn screen_layout_on_a_normal_terminal() {
    let s = screen_layout(Area { x: 0, y: 0, width: 80, height: 24 });
    assert_eq!(s.help, Area { x: 1, y: 20, width: 78, height: 3 });
    assert_eq!(s.progress.y, 17);
    assert_eq!(s.progress.height, 3);
    assert_eq!(s.playlist, Area { x: 1, y: 1, width: s.playlist.width, height: 16 });
    assert_eq!(s.playlist.width + s.now_playing.width, 78);
    assert_eq!(s.now_playing.x, 1 + s.playlist.width);
    assert_eq!(s.progress.width + s.status.width + s.volume.width, 78);
}

#[test]
fn screen_layout_matches_the_solver() {
    for (w, h) in [(80u16, 24u16), (120, 40), (30, 10), (0, 0), (200, 5)] {
        let size = Rect::new(0, 0, w, h);
        let rows = Layout::default()
            .direction(Direction::Vertical)
            .margin(1)
            .constraints([Constraint::Min(10), Constraint::Length(3), Constraint::Length(3)])
            .split(size);
        let main = Layout::default()
            .direction(Direction::Horizontal)
            .constraints([Constraint::Percentage(70), Constraint::Percentage(30)])
            .split(rows[0]);
        let controls = Layout::default()
            .direction(Direction::Horizontal)
            .constraints([
                Constraint::Percentage(50),
                Constraint::Percentage(25),
                Constraint::Percentage(25),
            ])
            .split(rows[1]);
        let s = screen_layout(area(size));
        assert_eq!(s.playlist, area(main[0]));
        assert_eq!(s.now_playing, area(main[1]));
        assert_eq!(s.progress, area(controls[0]));
        assert_eq!(s.status, area(controls[1]));
        assert_eq!(s.volume, area(controls[2]));
        assert_eq!(s.help, area(rows[2]));
    }
}
