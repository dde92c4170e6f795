use epn_gui::canvas::{points_equal, CanvasPoint, DrawMode, Painting};

fn pt(x: f32, y: f32) -> CanvasPoint {
    CanvasPoint { x: x.to_bits(), y: y.to_bits() }
}

fn figs(p: &Painting) -> Vec<Vec<CanvasPoint>> {
    p.figures().clone()
}

#[test]
fn new_canvas_is_empty_in_drawing_mode() {
    let p = Painting::new();
    assert!(p.figures().is_empty());
    assert_eq!(p.mode(), DrawMode::Stat);
    assert_eq!(p.start(), CanvasPoint { x: 0, y: 0 });
    assert_eq!(p.end(), CanvasPoint { x: 0, y: 0 });
    assert_eq!(p.obstacle_pos(), CanvasPoint { x: 0, y: 0 });
}

#[test]
fn first_frame_opens_an_empty_figure() {
    let mut p = Painting::new();
    assert!(!p.handle_input(None, false));
    assert_eq!(figs(&p), vec![Vec::<CanvasPoint>::new()]);
}

#[test]
fn primary_clicks_add_points_without_repeats() {
    let mut p = Painting::new();
    assert!(p.handle_input(Some(pt(0.1, 0.2)), false));
    assert!(p.handle_input(Some(pt(0.3, 0.2)), false));
    assert!(!p.handle_input(Some(pt(0.3, 0.2)), false));
    assert!(p.handle_input(Some(pt(0.1, 0.2)), false));
    assert_eq!(figs(&p), vec![vec![pt(0.1, 0.2), pt(0.3, 0.2), pt(0.1, 0.2)]]);
}

#[test]
fn secondary_click_closes_figure_and_opens_new() {
    let mut p = Painting::new();
    p.handle_input(Some(pt(0.1, 0.1)), false);
    p.handle_input(Some(pt(0.5, 0.1)), false);
    p.handle_input(Some(pt(0.5, 0.5)), false);
    assert!(!p.handle_input(None, true));
    assert_eq!(
        figs(&p),
        vec![vec![pt(0.1, 0.1), pt(0.5, 0.1), pt(0.5, 0.5), pt(0.1, 0.1)], vec![]]
    );
    // finished figures stay as they are
    p.handle_input(Some(pt(0.9, 0.9)), false);
    assert_eq!(figs(&p)[0], vec![pt(0.1, 0.1), pt(0.5, 0.1), pt(0.5, 0.5), pt(0.1, 0.1)]);
    assert_eq!(figs(&p)[1], vec![pt(0.9, 0.9)]);
}

#[test]
fn secondary_click_on_empty_figure_does_nothing() {
    let mut p = Painting::new();
    p.handle_input(None, true);
    assert_eq!(figs(&p), vec![Vec::<CanvasPoint>::new()]);
}

#[test]
fn both_clicks_in_one_frame_add_then_close() {
    let mut p = Painting::new();
    assert!(p.handle_input(Some(pt(0.2, 0.4)), true));
    assert_eq!(figs(&p), vec![vec![pt(0.2, 0.4), pt(0.2, 0.4)], vec![]]);
}

#[test]
fn other_modes_move_their_point_only() {
    let mut p = Painting::new();
    p.handle_input(Some(pt(0.1, 0.1)), false);
    p.set_mode(DrawMode::Start);
    assert!(!p.handle_input(Some(pt(0.25, 0.75)), true));
    assert_eq!(p.start(), pt(0.25, 0.75));
    p.set_mode(DrawMode::End);
    p.handle_input(Some(pt(0.5, 0.5)), false);
    assert_eq!(p.end(), pt(0.5, 0.5));
    p.set_mode(DrawMode::Dym);
    p.handle_input(Some(pt(0.6, 0.4)), false);
    p.handle_input(None, false);
    assert_eq!(p.obstacle_pos(), pt(0.6, 0.4));
    assert_eq!(p.start(), pt(0.25, 0.75));
    assert_eq!(p.end(), pt(0.5, 0.5));
    assert_eq!(figs(&p), vec![vec![pt(0.1, 0.1)]]);
}

#[test]
fn drawing_mode_leaves_route_points() {
    let mut p = Painting::new();
    p.set_start(pt(0.3, 0.3));
    p.set_end(pt(0.7, 0.7));
    p.set_obstacle_pos(pt(0.5, 0.2));
    p.handle_input(Some(pt(0.9, 0.1)), true);
    assert_eq!(p.start(), pt(0.3, 0.3));
    assert_eq!(p.end(), pt(0.7, 0.7));
    assert_eq!(p.obstacle_pos(), pt(0.5, 0.2));
}

#[test]
fn negative_zero_counts_as_repeat_of_zero() {
    let mut p = Painting::new();
    assert!(p.handle_input(Some(pt(0.0, 0.5)), false));
    assert!(!p.handle_input(Some(pt(-0.0, 0.5)), false));
    assert_eq!(figs(&p), vec![vec![pt(0.0, 0.5)]]);
}

#[test]
fn nan_point_never_counts_as_repeat() {
    let mut p = Painting::new();
    assert!(p.handle_input(Some(pt(f32::NAN, 0.5)), false));
    assert!(p.handle_input(Some(pt(f32::NAN, 0.5)), false));
    assert_eq!(figs(&p)[0].len(), 2);
}

#[test]
fn points_compare_as_floats() {
    assert!(points_equal(pt(0.25, 0.5), pt(0.25, 0.5)));
    assert!(!points_equal(pt(0.25, 0.5), pt(0.5, 0.5)));
    assert!(points_equal(pt(-0.0, 0.0), pt(0.0, -0.0)));
    assert!(!points_equal(pt(f32::NAN, 0.0), pt(f32::NAN, 0.0)));
    assert!(!points_equal(pt(f32::INFINITY, 1.0), pt(f32::NEG_INFINITY, 1.0)));
    assert!(points_equal(pt(f32::INFINITY, 1.0), pt(f32::INFINITY, 1.0)));
}
