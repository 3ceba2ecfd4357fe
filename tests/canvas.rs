use mandelbrot_viewer::painting::{drawn, record_frame};
use mandelbrot_viewer::{Hover, MandelbrotViewerApp, Point, StrokeStyle};

fn pt(x: u32, y: u32) -> Point {
    Point::from_bits(x, y)
}

fn hover_at(x: u32, y: u32) -> Option<Hover> {
    Some(Hover { screen: pt(x + 100, y + 100), canvas: pt(x, y) })
}

#[test]
fn default_state_values() {
    let app = MandelbrotViewerApp::default();
    assert_eq!(app.x, 0);
    assert_eq!(app.y, 0);
    assert_eq!(app.zoom, 1);
    assert_eq!(app.pointer_pos, Point::zero());
    assert_eq!(app.canvas_pos, Point::zero());
    assert!(app.lines.is_empty());
    assert_eq!(app.stroke, StrokeStyle { width_bits: 0x3f80_0000, r: 25, g: 200, b: 100, a: 255 });
    assert_eq!(1.0f32.to_bits(), app.stroke.width_bits);
}

#[test]
fn new_without_stored_state_is_default() {
    let app = MandelbrotViewerApp::new(None);
    assert_eq!((app.x, app.y, app.zoom), (0, 0, 1));
    assert!(app.lines.is_empty());
}

#[test]
fn new_with_stored_state_keeps_it() {
    let mut stored = MandelbrotViewerApp::default();
    stored.x = 7;
    stored.y = 9;
    stored.zoom = 3;
    stored.lines = vec![vec![pt(1, 2), pt(3, 4)], vec![]];
    let app = MandelbrotViewerApp::new(Some(stored));
    assert_eq!((app.x, app.y, app.zoom), (7, 9, 3));
    assert_eq!(app.lines, vec![vec![pt(1, 2), pt(3, 4)], vec![]]);
}

#[test]
fn clear_empties_painting() {
    let mut app = MandelbrotViewerApp::default();
    app.lines = vec![vec![pt(1, 1), pt(2, 2)], vec![pt(5, 5)], vec![]];
    app.x = 4;
    app.clear_painting();
    assert!(app.lines.is_empty());
    assert_eq!(app.x, 4);
    app.clear_painting();
    assert!(app.lines.is_empty());
}

#[test]
fn distinct_hovers_make_one_line() {
    let mut app = MandelbrotViewerApp::default();
    let points = [(1, 1), (2, 1), (2, 3), (1, 1)];
    for &(x, y) in points.iter() {
        assert!(app.on_frame(hover_at(x, y)));
    }
    assert_eq!(app.lines, vec![vec![pt(1, 1), pt(2, 1), pt(2, 3), pt(1, 1)]]);
    assert_eq!(app.canvas_pos, pt(1, 1));
    assert_eq!(app.pointer_pos, pt(101, 101));
}

#[test]
fn repeated_hover_is_not_recorded() {
    let mut app = MandelbrotViewerApp::default();
    assert!(app.on_frame(hover_at(3, 4)));
    assert!(!app.on_frame(hover_at(3, 4)));
    assert!(app.on_frame(hover_at(3, 5)));
    assert_eq!(app.lines, vec![vec![pt(3, 4), pt(3, 5)]]);
}

#[test]
fn leaving_canvas_starts_new_line() {
    let mut app = MandelbrotViewerApp::default();
    app.on_frame(hover_at(1, 2));
    app.on_frame(hover_at(2, 2));
    assert!(app.on_frame(None));
    assert_eq!(app.lines, vec![vec![pt(1, 2), pt(2, 2)], vec![]]);
    assert_eq!(app.canvas_pos, pt(2, 2));
    assert!(!app.on_frame(None));
    assert_eq!(app.lines.len(), 2);
    app.on_frame(hover_at(9, 9));
    assert_eq!(app.lines, vec![vec![pt(1, 2), pt(2, 2)], vec![pt(9, 9)]]);
}

#[test]
fn frame_without_hover_on_empty_painting() {
    let mut app = MandelbrotViewerApp::default();
    assert!(!app.on_frame(None));
    assert_eq!(app.lines, vec![Vec::<Point>::new()]);
    assert_eq!(app.pointer_pos, Point::zero());
}

#[test]
fn short_lines_are_not_drawn() {
    let mut app = MandelbrotViewerApp::default();
    app.lines = vec![
        vec![pt(1, 1)],
        vec![pt(1, 1), pt(2, 2)],
        vec![],
        vec![pt(4, 4), pt(5, 5), pt(6, 6)],
    ];
    assert_eq!(
        app.drawn_lines(),
        vec![vec![pt(1, 1), pt(2, 2)], vec![pt(4, 4), pt(5, 5), pt(6, 6)]]
    );
    assert!(drawn(&vec![vec![pt(1, 1)], vec![]]).is_empty());
}

#[test]
fn record_frame_on_plain_lines() {
    let mut lines: Vec<Vec<Point>> = Vec::new();
    assert!(record_frame(&mut lines, Some(pt(1, 1))));
    assert!(!record_frame(&mut lines, Some(pt(1, 1))));
    assert!(record_frame(&mut lines, None));
    assert_eq!(lines, vec![vec![pt(1, 1)], vec![]]);
}
