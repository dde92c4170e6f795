use epn_gui::polygon::close_polygon;
use epn_gui::theme::{route_colors, Rgb};

#[test]
fn closing_repeats_first_point() {
    assert_eq!(close_polygon(&vec![1u32, 2, 3]), vec![1, 2, 3, 1]);
    assert_eq!(close_polygon(&vec![(0.5f32, 0.25f32), (1.0, 0.0)]), vec![(0.5, 0.25), (1.0, 0.0), (0.5, 0.25)]);
}

#[test]
fn closing_single_point_doubles_it() {
    assert_eq!(close_polygon(&vec![7i64]), vec![7, 7]);
}

#[test]
fn closing_empty_figure_gives_empty() {
    let empty: Vec<u8> = Vec::new();
    assert_eq!(close_polygon(&empty), Vec::<u8>::new());
}

#[test]
fn dark_theme_colours() {
    let c = route_colors(true);
    assert_eq!(c.obstacles, Rgb { r: 124, g: 252, b: 0 });
    assert_eq!(c.routes, Rgb { r: 255, g: 255, b: 255 });
}

#[test]
fn light_theme_is_complement_of_dark() {
    let d = route_colors(true);
    let l = route_colors(false);
    assert_eq!(l.obstacles, Rgb { r: 131, g: 3, b: 255 });
    assert_eq!(l.routes, Rgb { r: 0, g: 0, b: 0 });
    for (a, b) in [(d.obstacles, l.obstacles), (d.routes, l.routes)] {
        assert_eq!((255 - a.r, 255 - a.g, 255 - a.b), (b.r, b.g, b.b));
    }
}
