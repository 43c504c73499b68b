//! Shapes in terminal space, measured in millionths of a cell.

use vstd::prelude::*;
use ratatui::style::Color;
use crate::canvas::SvgCanvas;
use crate::interpolate::{Interpolate, Scalar};

verus! {

/// A point in terminal space.
#[derive(Debug, Clone, Copy, PartialEq, Eq, Structural)]
pub struct Point {
    pub x: Scalar,
    pub y: Scalar,
}

impl Point {
    /// The point at those coordinates.
    pub fn new(x: Scalar, y: Scalar) -> (r: Self)
        ensures
            r.x == x,
            r.y == y,
    {
        Point { x, y }
    }
}

impl Interpolate for Point {
    /// Points blend coordinate by coordinate.
    open spec fn blend_spec(&self, other: &Self, t: int) -> Self {
        Point { x: self.x.blend_spec(&other.x, t), y: self.y.blend_spec(&other.y, t) }
    }

    fn lerp(&self, other: &Self, t: i64) -> (r: Self) {
        Point { x: self.x.lerp(&other.x, t), y: self.y.lerp(&other.y, t) }
    }
}

/// The sum of two scalars, which stops at the ends of the range.
pub open spec fn sum(a: Scalar, b: Scalar) -> Scalar {
    let s = a.millionths + b.millionths;
    Scalar {
        millionths: if s > i64::MAX {
            i64::MAX
        } else if s < i64::MIN {
            i64::MIN
        } else {
            s as i64
        },
    }
}

/// The difference of two scalars, which stops at the ends of the range.
pub open spec fn difference(a: Scalar, b: Scalar) -> Scalar {
    let d = a.millionths - b.millionths;
    Scalar {
        millionths: if d > i64::MAX {
            i64::MAX
        } else if d < i64::MIN {
            i64::MIN
        } else {
            d as i64
        },
    }
}

/// The lesser of two scalars.
pub open spec fn lesser(a: Scalar, b: Scalar) -> Scalar {
    if a.millionths <= b.millionths {
        a
    } else {
        b
    }
}

/// The greater of two scalars.
pub open spec fn greater(a: Scalar, b: Scalar) -> Scalar {
    if a.millionths >= b.millionths {
        a
    } else {
        b
    }
}

/// Adds two scalars; the sum stops at the ends of the range.
pub fn add_scalars(a: Scalar, b: Scalar) -> (r: Scalar)
    ensures
        r == sum(a, b),
{
    let s: i128 = a.millionths as i128 + b.millionths as i128;
    if s > i64::MAX as i128 {
        Scalar { millionths: i64::MAX }
    } else if s < i64::MIN as i128 {
        Scalar { millionths: i64::MIN }
    } else {
        Scalar { millionths: s as i64 }
    }
}

/// Subtracts two scalars; the difference stops at the ends of the range.
pub fn subtract_scalars(a: Scalar, b: Scalar) -> (r: Scalar)
    ensures
        r == difference(a, b),
{
    let d: i128 = a.millionths as i128 - b.millionths as i128;
    if d > i64::MAX as i128 {
        Scalar { millionths: i64::MAX }
    } else if d < i64::MIN as i128 {
        Scalar { millionths: i64::MIN }
    } else {
        Scalar { millionths: d as i64 }
    }
}

/// The lesser of two scalars.
pub fn min_scalar(a: Scalar, b: Scalar) -> (r: Scalar)
    ensures
        r == lesser(a, b),
{
    if a.millionths <= b.millionths {
        a
    } else {
        b
    }
}

/// The greater of two scalars.
pub fn max_scalar(a: Scalar, b: Scalar) -> (r: Scalar)
    ensures
        r == greater(a, b),
{
    if a.millionths >= b.millionths {
        a
    } else {
        b
    }
}

/// A shape: something with a bounding box that can tell which points it
/// holds and that can draw itself.
pub trait Shape {
    /// The corners of the bounding box: the least and the greatest
    /// coordinates.
    spec fn bounding_box(&self) -> (Point, Point);

    /// Whether the shape holds `point`.
    spec fn holds(&self, point: Point) -> bool;

    /// Draws the shape on a canvas.
    fn render(&self, canvas: &mut SvgCanvas);

    /// Computes the corners of the bounding box.
    fn bounds(&self) -> (r: (Point, Point))
        ensures
            r == self.bounding_box(),
    ;

    /// Tells whether the shape holds `point`.
    fn contains(&self, point: Point) -> (r: bool)
        ensures
            r == self.holds(point),
    ;
}

/// A rectangle.
#[derive(Debug, Clone, Copy)]
pub struct Rectangle {
    pub x: Scalar,
    pub y: Scalar,
    pub width: Scalar,
    pub height: Scalar,
    pub fill: Option<Color>,
    pub stroke: Option<Color>,
    pub stroke_width: u8,
    pub corner_radius: Scalar,
}

impl Rectangle {
    /// A rectangle without fill, with a white stroke of width one and sharp
    /// corners.
    pub fn new(x: Scalar, y: Scalar, width: Scalar, height: Scalar) -> (r: Self)
        ensures
            r == (Rectangle {
                x: x,
                y: y,
                width: width,
                height: height,
                fill: None,
                stroke: Some(Color::White),
                stroke_width: 1,
                corner_radius: Scalar { millionths: 0 },
            }),
    {
        Rectangle {
            x,
            y,
            width,
            height,
            fill: None,
            stroke: Some(Color::White),
            stroke_width: 1,
            corner_radius: Scalar { millionths: 0 },
        }
    }

    /// The same rectangle with a fill.
    pub fn fill(self, color: Color) -> (r: Self)
        ensures
            r == (Rectangle { fill: Some(color), ..self }),
    {
        Rectangle { fill: Some(color), ..self }
    }

    /// The same rectangle with another stroke.
    pub fn stroke(self, color: Color) -> (r: Self)
        ensures
            r == (Rectangle { stroke: Some(color), ..self }),
    {
        Rectangle { stroke: Some(color), ..self }
    }

    /// The same rectangle with rounded corners.
    pub fn rounded(self, radius: Scalar) -> (r: Self)
        ensures
            r == (Rectangle { corner_radius: radius, ..self }),
    {
        Rectangle { corner_radius: radius, ..self }
    }
}

impl Shape for Rectangle {
    open spec fn bounding_box(&self) -> (Point, Point) {
        (
            Point { x: self.x, y: self.y },
            Point { x: sum(self.x, self.width), y: sum(self.y, self.height) },
        )
    }

    /// A rectangle holds the points from its corner up to its width and
    /// height away, the edges included.
    open spec fn holds(&self, point: Point) -> bool {
        &&& point.x.millionths >= self.x.millionths
        &&& point.x.millionths <= self.x.millionths + self.width.millionths
        &&& point.y.millionths >= self.y.millionths
        &&& point.y.millionths <= self.y.millionths + self.height.millionths
    }

    /// Nothing is drawn: the canvas stays as it is.
    fn render(&self, canvas: &mut SvgCanvas)
        ensures
            final(canvas)@ == old(canvas)@,
    {
    }

    fn bounds(&self) -> (r: (Point, Point)) {
        (
            Point::new(self.x, self.y),
            Point::new(add_scalars(self.x, self.width), add_scalars(self.y, self.height)),
        )
    }

    fn contains(&self, point: Point) -> (r: bool) {
        point.x.millionths >= self.x.millionths && point.x.millionths as i128
            <= self.x.millionths as i128 + self.width.millionths as i128 && point.y.millionths
            >= self.y.millionths && point.y.millionths as i128 <= self.y.millionths as i128
            + self.height.millionths as i128
    }
}

/// A circle.
#[derive(Debug, Clone, Copy)]
pub struct Circle {
    pub cx: Scalar,
    pub cy: Scalar,
    pub radius: Scalar,
    pub fill: Option<Color>,
    pub stroke: Option<Color>,
    pub stroke_width: u8,
}

impl Circle {
    /// A circle without fill, with a white stroke of width one.
    pub fn new(cx: Scalar, cy: Scalar, radius: Scalar) -> (r: Self)
        ensures
            r == (Circle {
                cx: cx,
                cy: cy,
                radius: radius,
                fill: None,
                stroke: Some(Color::White),
                stroke_width: 1,
            }),
    {
        Circle { cx, cy, radius, fill: None, stroke: Some(Color::White), stroke_width: 1 }
    }

    /// The same circle with a fill.
    pub fn fill(self, color: Color) -> (r: Self)
        ensures
            r == (Circle { fill: Some(color), ..self }),
    {
        Circle { fill: Some(color), ..self }
    }

    /// The same circle with another stroke.
    pub fn stroke(self, color: Color) -> (r: Self)
        ensures
            r == (Circle { stroke: Some(color), ..self }),
    {
        Circle { stroke: Some(color), ..self }
    }
}

/// The square of the distance between two coordinates.
fn square_of_gap(a: i64, b: i64) -> (r: u128)
    ensures
        r == (a - b) * (a - b),
{
    let gap: u128 = if a >= b {
        (a as i128 - b as i128) as u128
    } else {
        (b as i128 - a as i128) as u128
    };
    assert(gap * gap <= 0xffff_ffff_ffff_ffff * 0xffff_ffff_ffff_ffff) by (nonlinear_arith)
        requires
            0 <= gap <= 0xffff_ffff_ffff_ffff,
    ;
    assert(gap * gap == (a - b) * (a - b)) by (nonlinear_arith)
        requires
            gap == a - b || gap == b - a,
    ;
    gap * gap
}

impl Shape for Circle {
    open spec fn bounding_box(&self) -> (Point, Point) {
        (
            Point { x: difference(self.cx, self.radius), y: difference(self.cy, self.radius) },
            Point { x: sum(self.cx, self.radius), y: sum(self.cy, self.radius) },
        )
    }

    /// A circle holds the points that are no further than its radius from
    /// its centre.
    open spec fn holds(&self, point: Point) -> bool {
        let dx = point.x.millionths - self.cx.millionths;
        let dy = point.y.millionths - self.cy.millionths;
        dx * dx + dy * dy <= self.radius.millionths * self.radius.millionths
    }

    /// Nothing is drawn: the canvas stays as it is.
    fn render(&self, canvas: &mut SvgCanvas)
        ensures
            final(canvas)@ == old(canvas)@,
    {
    }

    fn bounds(&self) -> (r: (Point, Point)) {
        (
            Point::new(
                subtract_scalars(self.cx, self.radius),
                subtract_scalars(self.cy, self.radius),
            ),
            Point::new(add_scalars(self.cx, self.radius), add_scalars(self.cy, self.radius)),
        )
    }

    fn contains(&self, point: Point) -> (r: bool) {
        let across: u128 = square_of_gap(point.x.millionths, self.cx.millionths);
        let down: u128 = square_of_gap(point.y.millionths, self.cy.millionths);
        let reach: u128 = square_of_gap(self.radius.millionths, 0);
        across <= reach && down <= reach - across
    }
}

/// A line between two points.
#[derive(Debug, Clone, Copy)]
pub struct Line {
    pub from: Point,
    pub to: Point,
    pub stroke: Color,
    pub stroke_width: u8,
}

impl Line {
    /// A white line of width one.
    pub fn new(from: Point, to: Point) -> (r: Self)
        ensures
            r == (Line { from: from, to: to, stroke: Color::White, stroke_width: 1 }),
    {
        Line { from, to, stroke: Color::White, stroke_width: 1 }
    }

    /// The same line with another stroke.
    pub fn stroke(self, color: Color) -> (r: Self)
        ensures
            r == (Line { stroke: color, ..self }),
    {
        Line { stroke: color, ..self }
    }
}

impl Shape for Line {
    open spec fn bounding_box(&self) -> (Point, Point) {
        (
            Point { x: lesser(self.from.x, self.to.x), y: lesser(self.from.y, self.to.y) },
            Point { x: greater(self.from.x, self.to.x), y: greater(self.from.y, self.to.y) },
        )
    }

    /// A line has no area and holds no point.
    open spec fn holds(&self, point: Point) -> bool {
        false
    }

    /// Nothing is drawn: the canvas stays as it is.
    fn render(&self, canvas: &mut SvgCanvas)
        ensures
            final(canvas)@ == old(canvas)@,
    {
    }

    fn bounds(&self) -> (r: (Point, Point)) {
        (
            Point::new(min_scalar(self.from.x, self.to.x), min_scalar(self.from.y, self.to.y)),
            Point::new(max_scalar(self.from.x, self.to.x), max_scalar(self.from.y, self.to.y)),
        )
    }

    fn contains(&self, point: Point) -> (r: bool) {
        false
    }
}

/// A path through a list of points.
#[derive(Debug, Clone)]
pub struct Path {
    pub points: Vec<Point>,
    pub fill: Option<Color>,
    pub stroke: Option<Color>,
    pub stroke_width: u8,
    pub closed: bool,
}

/// The box round the first `n` of some points: in each direction the least
/// and the greatest coordinate among them. Without points it is the origin.
pub open spec fn box_of(points: Seq<Point>, n: int) -> (Point, Point)
    decreases n,
{
    if n <= 0 || points.len() == 0 {
        (
            Point { x: Scalar { millionths: 0 }, y: Scalar { millionths: 0 } },
            Point { x: Scalar { millionths: 0 }, y: Scalar { millionths: 0 } },
        )
    } else if n == 1 {
        (points[0], points[0])
    } else {
        let (low, high) = box_of(points, n - 1);
        let p = points[n - 1];
        (
            Point { x: lesser(low.x, p.x), y: lesser(low.y, p.y) },
            Point { x: greater(high.x, p.x), y: greater(high.y, p.y) },
        )
    }
}

/// The box round some points holds each of them, and each of its sides
/// touches one of them.
pub proof fn box_is_tight(points: Seq<Point>, n: int)
    requires
        1 <= n <= points.len(),
    ensures
        forall|i: int|
            0 <= i < n ==> {
                &&& box_of(points, n).0.x.millionths <= (#[trigger] points[i]).x.millionths
                    <= box_of(points, n).1.x.millionths
                &&& box_of(points, n).0.y.millionths <= points[i].y.millionths <= box_of(
                    points,
                    n,
                ).1.y.millionths
            },
        exists|i: int| 0 <= i < n && (#[trigger] points[i]).x == box_of(points, n).0.x,
        exists|i: int| 0 <= i < n && (#[trigger] points[i]).y == box_of(points, n).0.y,
        exists|i: int| 0 <= i < n && (#[trigger] points[i]).x == box_of(points, n).1.x,
        exists|i: int| 0 <= i < n && (#[trigger] points[i]).y == box_of(points, n).1.y,
    decreases n,
{
    if n == 1 {
        assert(points[0].x == box_of(points, n).0.x);
        assert(points[0].y == box_of(points, n).0.y);
    } else {
        box_is_tight(points, n - 1);
        let (low, high) = box_of(points, n - 1);
        let p = points[n - 1];
        let a = choose|i: int| 0 <= i < n - 1 && (#[trigger] points[i]).x == low.x;
        let b = choose|i: int| 0 <= i < n - 1 && (#[trigger] points[i]).y == low.y;
        let c = choose|i: int| 0 <= i < n - 1 && (#[trigger] points[i]).x == high.x;
        let d = choose|i: int| 0 <= i < n - 1 && (#[trigger] points[i]).y == high.y;
        let wa = if low.x.millionths <= p.x.millionths { a } else { n - 1 };
        let wb = if low.y.millionths <= p.y.millionths { b } else { n - 1 };
        let wc = if high.x.millionths >= p.x.millionths { c } else { n - 1 };
        let wd = if high.y.millionths >= p.y.millionths { d } else { n - 1 };
        assert(points[wa].x == box_of(points, n).0.x);
        assert(points[wb].y == box_of(points, n).0.y);
        assert(points[wc].x == box_of(points, n).1.x);
        assert(points[wd].y == box_of(points, n).1.y);
    }
}

impl Path {
    /// An open path without points or fill, with a white stroke of width
    /// one.
    pub fn new() -> (r: Self)
        ensures
            r.points@ == Seq::<Point>::empty(),
            r.fill is None,
            r.stroke == Some(Color::White),
            r.stroke_width == 1,
            !r.closed,
    {
        Path {
            points: Vec::new(),
            fill: None,
            stroke: Some(Color::White),
            stroke_width: 1,
            closed: false,
        }
    }

    /// The same path with one more point at its end.
    pub fn add_point(self, point: Point) -> (r: Self)
        ensures
            r.points@ == self.points@.push(point),
            r.fill == self.fill,
            r.stroke == self.stroke,
            r.stroke_width == self.stroke_width,
            r.closed == self.closed,
    {
        let mut path = self;
        path.points.push(point);
        path
    }

    /// The same path, closed.
    pub fn close(self) -> (r: Self)
        ensures
            r.points == self.points,
            r.fill == self.fill,
            r.stroke == self.stroke,
            r.stroke_width == self.stroke_width,
            r.closed,
    {
        Path { closed: true, ..self }
    }

    /// The same path with a fill.
    pub fn fill(self, color: Color) -> (r: Self)
        ensures
            r.points == self.points,
            r.fill == Some(color),
            r.stroke == self.stroke,
            r.stroke_width == self.stroke_width,
            r.closed == self.closed,
    {
        Path { fill: Some(color), ..self }
    }
}

impl Shape for Path {
    open spec fn bounding_box(&self) -> (Point, Point) {
        box_of(self.points@, self.points@.len() as int)
    }

    /// Containment in a path is not decided: a path holds no point.
    open spec fn holds(&self, point: Point) -> bool {
        false
    }

    /// Nothing is drawn: the canvas stays as it is.
    fn render(&self, canvas: &mut SvgCanvas)
        ensures
            final(canvas)@ == old(canvas)@,
    {
    }

    fn bounds(&self) -> (r: (Point, Point)) {
        if self.points.len() == 0 {
            return (
                Point::new(Scalar::new(0), Scalar::new(0)),
                Point::new(Scalar::new(0), Scalar::new(0)),
            );
        }
        let mut low: Point = self.points[0];
        let mut high: Point = self.points[0];
        let mut i: usize = 1;
        while i < self.points.len()
            invariant
                1 <= i <= self.points.len(),
                (low, high) == box_of(self.points@, i as int),
            decreases self.points.len() - i,
        {
            let p: Point = self.points[i];
            low = Point::new(min_scalar(low.x, p.x), min_scalar(low.y, p.y));
            high = Point::new(max_scalar(high.x, p.x), max_scalar(high.y, p.y));
            i = i + 1;
        }
        (low, high)
    }

    fn contains(&self, point: Point) -> (r: bool) {
        false
    }
}

} // verus!
