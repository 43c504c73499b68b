use ratatui::style::Color;
use ruensh::canvas::SvgCanvas;
use ruensh::easing::Easing;
use ruensh::interpolate::{Interpolate, Scalar};
use ruensh::transition::Transition;
use ruensh::shapes::{
    add_scalars, max_scalar, min_scalar, subtract_scalars, Circle, Line, Path, Point, Rectangle,
    Shape,
};

fn s(whole: i64) -> Scalar {
    Scalar::new(whole * 1_000_000)
}

fn p(x: i64, y: i64) -> Point {
    Point::new(s(x), s(y))
}

#[test]
fn scalars_add_and_stop_at_the_ends() {
    assert_eq!(add_scalars(s(2), s(3)), s(5));
    assert_eq!(add_scalars(Scalar::new(i64::MAX), Scalar::new(1)), Scalar::new(i64::MAX));
    assert_eq!(add_scalars(Scalar::new(i64::MIN), Scalar::new(-1)), Scalar::new(i64::MIN));
    assert_eq!(subtract_scalars(s(2), s(3)), s(-1));
    assert_eq!(subtract_scalars(Scalar::new(i64::MIN), Scalar::new(1)), Scalar::new(i64::MIN));
    assert_eq!(subtract_scalars(Scalar::new(i64::MAX), Scalar::new(-1)), Scalar::new(i64::MAX));
    assert_eq!(min_scalar(s(2), s(3)), s(2));
    assert_eq!(max_scalar(s(2), s(3)), s(3));
    assert_eq!(min_scalar(s(-2), s(-3)), s(-3));
}

#[test]
fn a_rectangle_and_its_points() {
    let r = Rectangle::new(s(1), s(2), s(10), s(5));
    assert_eq!(r.fill, None);
    assert_eq!(r.stroke, Some(Color::White));
    assert_eq!(r.stroke_width, 1);
    assert_eq!(r.corner_radius, s(0));
    assert_eq!(r.bounds(), (p(1, 2), p(11, 7)));
    assert!(r.contains(p(1, 2)));
    assert!(r.contains(p(11, 7)));
    assert!(r.contains(p(5, 5)));
    assert!(!r.contains(p(0, 5)));
    assert!(!r.contains(p(12, 5)));
    assert!(!r.contains(p(5, 1)));
    assert!(!r.contains(p(5, 8)));
    assert!(!r.contains(Point::new(Scalar::new(11_000_001), s(5))));
    let r = r.fill(Color::Red).stroke(Color::Blue).rounded(s(2));
    assert_eq!(r.fill, Some(Color::Red));
    assert_eq!(r.stroke, Some(Color::Blue));
    assert_eq!(r.corner_radius, s(2));
    assert_eq!(r.width, s(10));
}

#[test]
fn a_rectangle_at_the_end_of_the_range() {
    let r = Rectangle::new(Scalar::new(i64::MAX - 5), s(0), Scalar::new(10), s(1));
    assert_eq!(r.bounds().1.x, Scalar::new(i64::MAX));
    assert!(r.contains(Point::new(Scalar::new(i64::MAX), s(0))));
    assert!(!r.contains(Point::new(Scalar::new(i64::MAX - 6), s(0))));
}

#[test]
fn a_circle_and_its_points() {
    let c = Circle::new(s(5), s(5), s(3));
    assert_eq!(c.bounds(), (p(2, 2), p(8, 8)));
    assert!(c.contains(p(5, 5)));
    assert!(c.contains(p(8, 5)));
    assert!(c.contains(p(5, 2)));
    assert!(!c.contains(p(8, 6)));
    assert!(!c.contains(p(9, 5)));
    assert!(c.contains(p(7, 7)));
    assert!(!c.contains(p(8, 8)));
    let c = c.fill(Color::Green).stroke(Color::Red);
    assert_eq!(c.fill, Some(Color::Green));
    assert_eq!(c.stroke, Some(Color::Red));
    assert_eq!(c.stroke_width, 1);
}

#[test]
fn a_circle_across_the_whole_range() {
    let c = Circle::new(Scalar::new(i64::MIN), Scalar::new(i64::MIN), Scalar::new(i64::MAX));
    assert!(!c.contains(Point::new(Scalar::new(i64::MAX), Scalar::new(i64::MAX))));
    assert!(c.contains(Point::new(Scalar::new(i64::MIN), Scalar::new(-1))));
    assert!(!c.contains(Point::new(Scalar::new(i64::MIN), Scalar::new(0))));
    let negative = Circle::new(s(0), s(0), s(-2));
    assert!(negative.contains(p(2, 0)));
    assert!(!negative.contains(p(2, 1)));
}

#[test]
fn a_line_has_bounds_but_no_area() {
    let l = Line::new(p(5, 1), p(2, 7));
    assert_eq!(l.stroke, Color::White);
    assert_eq!(l.bounds(), (p(2, 1), p(5, 7)));
    assert!(!l.contains(p(5, 1)));
    assert!(!l.contains(p(3, 3)));
    assert_eq!(l.stroke(Color::Cyan).stroke, Color::Cyan);
}

#[test]
fn a_path_and_its_bounds() {
    let path = Path::new();
    assert!(path.points.is_empty());
    assert_eq!(path.stroke, Some(Color::White));
    assert!(!path.closed);
    assert_eq!(path.bounds(), (p(0, 0), p(0, 0)));
    let path = path.add_point(p(3, 4));
    assert_eq!(path.bounds(), (p(3, 4), p(3, 4)));
    let path = path.add_point(p(-2, 9)).add_point(p(7, -1)).add_point(p(0, 0));
    assert_eq!(path.points.len(), 4);
    assert_eq!(path.bounds(), (p(-2, -1), p(7, 9)));
    assert!(!path.contains(p(0, 0)));
    let path = path.close().fill(Color::Red);
    assert!(path.closed);
    assert_eq!(path.fill, Some(Color::Red));
    assert_eq!(path.points.len(), 4);
}

#[test]
fn shapes_do_not_draw_yet() {
    let mut canvas = SvgCanvas::new(4, 4);
    Rectangle::new(s(0), s(0), s(2), s(2)).render(&mut canvas);
    Circle::new(s(1), s(1), s(1)).render(&mut canvas);
    Line::new(p(0, 0), p(3, 3)).render(&mut canvas);
    Path::new().add_point(p(1, 1)).render(&mut canvas);
    for y in 0..4 {
        for x in 0..4 {
            assert_eq!(canvas.cell_at(x, y).unwrap().glyph, ' ');
        }
    }
}

#[test]
fn points_blend_by_coordinate() {
    assert_eq!(p(0, 10).lerp(&p(4, 0), 250_000), p(1, 7).lerp(&p(1, 8), 500_000));
    assert_eq!(p(0, 10).lerp(&p(4, 0), 500_000), p(2, 5));
    let mut t = Transition::from_to(100, p(0, 0), p(10, -10), Easing::Linear).unwrap();
    assert_eq!(t.value_at(300_000), p(3, -3));
    t.start(0);
    assert_eq!(t.update(50), Some(p(5, -5)));
}
