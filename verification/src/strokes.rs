//! Strokes that are kept as points, to be painted, moved and painted again.

use vstd::prelude::*;

pub mod smileyface;

use crate::drawing::Color;
use crate::rect::UNITS_PER_PIXEL;
use crate::smoother::{make_segment, segment_spec, Sample, Segment};
use crate::unipen::Word;

verus! {

/// The pressure of every point of a handwritten word.
pub const WORD_PRESSURE: u16 = 1024;

/// The pause between the segments of a handwritten word, in milliseconds.
pub const WORD_STEP: u64 = 2;

/// The width of the canvas: 1404 pixels.
pub const CANVAS_WIDTH: i64 = 89856;

/// The height of the canvas: 1080 pixels.
pub const CANVAS_HEIGHT: i64 = 69120;

/// One point of a stroke, with the pressure on it.
#[derive(Clone, Copy, Debug, PartialEq, Eq, Structural)]
pub struct PointAndPressure {
    pub x: i32,
    pub y: i32,
    pub pressure: u16,
}

/// `a + b`, or the nearest coordinate where the sum is out of range.
pub open spec fn shift_spec(a: i32, b: i32) -> i32 {
    if a + b > i32::MAX {
        i32::MAX
    } else if a + b < i32::MIN {
        i32::MIN
    } else {
        (a + b) as i32
    }
}

/// A point moved by `(dx, dy)`.
pub open spec fn moved(p: PointAndPressure, dx: i32, dy: i32) -> PointAndPressure {
    PointAndPressure { x: shift_spec(p.x, dx), y: shift_spec(p.y, dy), pressure: p.pressure }
}

/// The sample that a point of a stroke stands for.
pub open spec fn sample_of(p: PointAndPressure) -> Sample {
    Sample { x: p.x, y: p.y, pressure: p.pressure as i32, tilt: None }
}

/// The other ink: white for black, black for everything else.
pub open spec fn inverted(c: Color) -> Color {
    match c {
        Color::Black => Color::White,
        _ => Color::Black,
    }
}

/// What a stroke holds.
pub struct StrokeView {
    pub color: Color,
    pub tip_size: u32,
    pub step: u64,
    pub points: Seq<PointAndPressure>,
}

impl StrokeView {
    /// The segments that paint the stroke: one per window of three
    /// consecutive points, all with the stroke's tip.
    pub open spec fn segments(self) -> Seq<Segment> {
        Seq::new(
            if self.points.len() >= 3 { (self.points.len() - 2) as nat } else { 0 },
            |i: int|
                segment_spec(
                    sample_of(self.points[i]),
                    self.tip_size,
                    sample_of(self.points[i + 1]),
                    self.tip_size,
                    sample_of(self.points[i + 2]),
                    self.tip_size,
                ),
        )
    }

    /// The stroke moved by `(dx, dy)`.
    pub open spec fn translated(self, dx: i32, dy: i32) -> StrokeView {
        StrokeView {
            points: Seq::new(self.points.len(), |i: int| moved(self.points[i], dx, dy)),
            ..self
        }
    }
}

/// Adds two coordinates and stays in range.
fn shift(a: i32, b: i32) -> (r: i32)
    ensures
        r == shift_spec(a, b),
{
    let sum: i64 = a as i64 + b as i64;
    if sum > i32::MAX as i64 {
        i32::MAX
    } else if sum < i32::MIN as i64 {
        i32::MIN
    } else {
        sum as i32
    }
}

#[derive(Debug)]
pub struct Stroke {
    color: Color,
    tip_size: u32,
    step: u64,
    points_and_pressure: Vec<PointAndPressure>,
}

impl View for Stroke {
    type V = StrokeView;

    closed spec fn view(&self) -> StrokeView {
        StrokeView {
            color: self.color,
            tip_size: self.tip_size,
            step: self.step,
            points: self.points_and_pressure@,
        }
    }
}

impl Default for Stroke {
    /// A black stroke without points, with a tip of size 2 and no pause.
    fn default() -> (s: Stroke)
        ensures
            s@ == (StrokeView { color: Color::Black, tip_size: 2, step: 0, points: Seq::empty() }),
    {
        Stroke { color: Color::Black, tip_size: 2, step: 0, points_and_pressure: Vec::new() }
    }
}

impl Stroke {
    pub fn set_color(&mut self, x: Color)
        ensures
            final(self)@ == (StrokeView { color: x, ..old(self)@ }),
    {
        self.color = x;
    }

    pub fn set_tip_size(&mut self, x: u32)
        ensures
            final(self)@ == (StrokeView { tip_size: x, ..old(self)@ }),
    {
        self.tip_size = x;
    }

    /// Sets the pause between two segments, in milliseconds.
    pub fn set_step(&mut self, x: u64)
        ensures
            final(self)@ == (StrokeView { step: x, ..old(self)@ }),
    {
        self.step = x;
    }

    pub fn set_points_and_pressure(&mut self, x: &[PointAndPressure])
        ensures
            final(self)@ == (StrokeView { points: x@, ..old(self)@ }),
    {
        let mut points: Vec<PointAndPressure> = Vec::with_capacity(x.len());
        let mut i: usize = 0;
        while i < x.len()
            invariant
                i <= x@.len(),
                points@ == x@.take(i as int),
            decreases x@.len() - i,
        {
            points.push(x[i]);
            assert(points@ =~= x@.take(i + 1));
            i = i + 1;
        }
        assert(points@ =~= x@);
        self.points_and_pressure = points;
    }

    /// Switches to the other ink: white for black, black for everything
    /// else.
    pub fn invert_color(&mut self)
        ensures
            final(self)@ == (StrokeView { color: inverted(old(self)@.color), ..old(self)@ }),
    {
        let c = match self.color {
            Color::Black => Color::White,
            _ => Color::Black,
        };
        self.color = c;
    }

    pub fn push_back(&mut self, x: i32, y: i32, pressure: u16)
        ensures
            final(self)@ == (StrokeView {
                points: old(self)@.points.push(PointAndPressure { x, y, pressure }),
                ..old(self)@
            }),
    {
        self.points_and_pressure.push(PointAndPressure { x, y, pressure });
    }

    pub fn clear(&mut self)
        ensures
            final(self)@ == (StrokeView { points: Seq::empty(), ..old(self)@ }),
    {
        self.points_and_pressure.clear();
    }

    /// Moves every point by `(dx, dy)`. A point that would leave the range
    /// of coordinates stops at its edge.
    pub fn translate(&mut self, dx: i32, dy: i32)
        ensures
            final(self)@ == old(self)@.translated(dx, dy),
    {
        let n = self.points_and_pressure.len();
        let mut i: usize = 0;
        while i < n
            invariant
                n == self.points_and_pressure@.len(),
                n == old(self).points_and_pressure@.len(),
                i <= n,
                self.color == old(self).color,
                self.tip_size == old(self).tip_size,
                self.step == old(self).step,
                forall|k: int|
                    0 <= k < i ==> self.points_and_pressure@[k] == moved(
                        old(self).points_and_pressure@[k],
                        dx,
                        dy,
                    ),
                forall|k: int|
                    i <= k < n ==> self.points_and_pressure@[k] == old(self).points_and_pressure@[k],
            decreases n - i,
        {
            let p = self.points_and_pressure[i];
            let q = PointAndPressure { x: shift(p.x, dx), y: shift(p.y, dy), pressure: p.pressure };
            self.points_and_pressure.set(i, q);
            i = i + 1;
        }
        assert(self.points_and_pressure@ =~= old(self)@.translated(dx, dy).points);
    }

    /// The width that the tip paints under a pressure, as a numerator over
    /// 2048.
    pub fn pointwidth(&self, pressure: u16) -> (w: u64)
        ensures
            w == self@.tip_size * pressure,
            w <= 0xffff_ffff * 0xffff,
    {
        assert(self.tip_size * pressure <= 0xffff_ffff * 0xffff) by (nonlinear_arith)
            requires
                self.tip_size <= 0xffff_ffff,
                pressure <= 0xffff,
        ;
        self.tip_size as u64 * pressure as u64
    }

    /// The ink of the stroke.
    pub fn color(&self) -> (c: Color)
        ensures
            c == self@.color,
    {
        self.color
    }

    /// The pause between two segments, in milliseconds.
    pub fn step(&self) -> (s: u64)
        ensures
            s == self@.step,
    {
        self.step
    }

    /// The number of points.
    pub fn len(&self) -> (n: usize)
        ensures
            n == self@.points.len(),
    {
        self.points_and_pressure.len()
    }

    /// The segments that paint the stroke, in order.
    pub fn draw(&self) -> (r: Vec<Segment>)
        ensures
            r@ == self@.segments(),
    {
        let n = self.points_and_pressure.len();
        let mut out: Vec<Segment> = Vec::new();
        if n < 3 {
            assert(out@ =~= self@.segments());
            return out;
        }
        let mut i: usize = 0;
        while i < n - 2
            invariant
                n == self.points_and_pressure@.len(),
                n >= 3,
                i <= n - 2,
                out@.len() == i,
                forall|k: int| 0 <= k < i ==> out@[k] == self@.segments()[k],
            decreases n - i,
        {
            let a = self.points_and_pressure[i];
            let b = self.points_and_pressure[i + 1];
            let c = self.points_and_pressure[i + 2];
            let start = Sample { x: a.x, y: a.y, pressure: a.pressure as i32, tilt: None };
            let ctrl = Sample { x: b.x, y: b.y, pressure: b.pressure as i32, tilt: None };
            let end = Sample { x: c.x, y: c.y, pressure: c.pressure as i32, tilt: None };
            out.push(
                make_segment(&start, self.tip_size, &ctrl, self.tip_size, &end, self.tip_size),
            );
            i = i + 1;
        }
        assert(out@ =~= self@.segments());
        out
    }
}

/// How far a point reaches from the origin along one axis, as a numerator
/// over 4096: the coordinate, pushed away from zero by the half-width that the
/// tip paints there.
pub open spec fn reach_spec(coordinate: int, tip_size: u32, pressure: u16) -> int {
    if coordinate < 0 {
        4096 * coordinate - tip_size * pressure
    } else {
        4096 * coordinate + tip_size * pressure
    }
}

/// A rectangle by its edges, as numerators over 4096.
#[derive(Clone, Copy, Debug, PartialEq, Eq, Structural)]
pub struct Bounds {
    pub xmin: i64,
    pub xmax: i64,
    pub ymin: i64,
    pub ymax: i64,
}

/// How far point `j` of a stroke reaches along the columns.
pub open spec fn reach_x(s: StrokeView, j: int) -> int {
    reach_spec(s.points[j].x as int, s.tip_size, s.points[j].pressure)
}

/// How far point `j` of a stroke reaches along the rows.
pub open spec fn reach_y(s: StrokeView, j: int) -> int {
    reach_spec(s.points[j].y as int, s.tip_size, s.points[j].pressure)
}

/// Whether any of the strokes has a point.
pub open spec fn has_points(strokes: Seq<StrokeView>) -> bool {
    exists|i: int| 0 <= i < strokes.len() && (#[trigger] strokes[i]).points.len() > 0
}

/// Whether point `j` of a stroke reaches no farther than the edges.
pub open spec fn in_bounds(s: StrokeView, j: int, b: Bounds) -> bool {
    &&& b.xmin <= reach_x(s, j) <= b.xmax
    &&& b.ymin <= reach_y(s, j) <= b.ymax
}

/// Whether every point of the strokes reaches no farther than the edges.
pub open spec fn within(strokes: Seq<StrokeView>, b: Bounds) -> bool {
    forall|i: int, j: int|
        0 <= i < strokes.len() && 0 <= j < strokes[i].points.len() ==> #[trigger] in_bounds(
            strokes[i],
            j,
            b,
        )
}

/// Whether some point of the strokes reaches each of the four edges.
pub open spec fn touched(strokes: Seq<StrokeView>, b: Bounds) -> bool {
    &&& exists|i: int, j: int|
        0 <= i < strokes.len() && 0 <= j < strokes[i].points.len() && #[trigger] reach_x(
            strokes[i],
            j,
        ) == b.xmin
    &&& exists|i: int, j: int|
        0 <= i < strokes.len() && 0 <= j < strokes[i].points.len() && #[trigger] reach_x(
            strokes[i],
            j,
        ) == b.xmax
    &&& exists|i: int, j: int|
        0 <= i < strokes.len() && 0 <= j < strokes[i].points.len() && #[trigger] reach_y(
            strokes[i],
            j,
        ) == b.ymin
    &&& exists|i: int, j: int|
        0 <= i < strokes.len() && 0 <= j < strokes[i].points.len() && #[trigger] reach_y(
            strokes[i],
            j,
        ) == b.ymax
}

/// How far a figure with the given bounds can move on the canvas: the least
/// and the greatest shift along the columns, then along the rows, as
/// numerators over 4096.
pub open spec fn boundaries_spec(b: Bounds) -> (int, int, int, int) {
    let left = 4096 * 89856 - b.xmin;
    let right = 4096 * 89856 - b.xmax;
    let top = 4096 * 69120 - b.ymin;
    let bottom = 4096 * 69120 - b.ymax;
    let width = b.xmax - b.xmin;
    let height = b.ymax - b.ymin;
    (-(left - width), right - width, -(top - height), bottom - height)
}

/// How far a coordinate reaches under a tip and a pressure.
fn reach(coordinate: i32, tip_size: u32, pressure: u16) -> (r: i64)
    ensures
        r == reach_spec(coordinate as int, tip_size, pressure),
        -0x1_0800_0000_0000 <= r <= 0x1_0800_0000_0000,
{
    assert(tip_size * pressure <= 0xffff_ffff * 0xffff) by (nonlinear_arith)
        requires
            tip_size <= 0xffff_ffff,
            pressure <= 0xffff,
    ;
    let radius: i64 = tip_size as i64 * pressure as i64;
    if coordinate < 0 {
        4096 * (coordinate as i64) - radius
    } else {
        4096 * (coordinate as i64) + radius
    }
}

/// Whether point `l` of stroke `k` comes before point `j` of stroke `i`.
spec fn before(strokes: Seq<StrokeView>, i: int, j: int, k: int, l: int) -> bool {
    &&& 0 <= k < strokes.len()
    &&& 0 <= l < strokes[k].points.len()
    &&& (k < i || (k == i && l < j))
}

/// Whether `b` bounds the points before point `j` of stroke `i`, each edge
/// being reached at the place named for it.
spec fn seen_bounds(
    strokes: Seq<StrokeView>,
    i: int,
    j: int,
    b: Bounds,
    at_xmin: (int, int),
    at_xmax: (int, int),
    at_ymin: (int, int),
    at_ymax: (int, int),
) -> bool {
    &&& forall|k: int, l: int| #[trigger]
        before(strokes, i, j, k, l) ==> {
            &&& b.xmin <= reach_x(strokes[k], l) <= b.xmax
            &&& b.ymin <= reach_y(strokes[k], l) <= b.ymax
        }
    &&& seen_place(strokes, i, j, at_xmin) && reach_x(strokes[at_xmin.0], at_xmin.1) == b.xmin
    &&& seen_place(strokes, i, j, at_xmax) && reach_x(strokes[at_xmax.0], at_xmax.1) == b.xmax
    &&& seen_place(strokes, i, j, at_ymin) && reach_y(strokes[at_ymin.0], at_ymin.1) == b.ymin
    &&& seen_place(strokes, i, j, at_ymax) && reach_y(strokes[at_ymax.0], at_ymax.1) == b.ymax
    &&& -0x1_0800_0000_0000 <= b.xmin <= b.xmax <= 0x1_0800_0000_0000
    &&& -0x1_0800_0000_0000 <= b.ymin <= b.ymax <= 0x1_0800_0000_0000
}

/// Whether a place names a point before point `j` of stroke `i`.
spec fn seen_place(strokes: Seq<StrokeView>, i: int, j: int, at: (int, int)) -> bool {
    &&& 0 <= at.0 < strokes.len()
    &&& 0 <= at.1 < strokes[at.0].points.len()
    &&& (at.0 < i || (at.0 == i && at.1 < j))
}

/// The strokes of one figure.
#[derive(Debug)]
pub struct Strokes {
    strokes: Vec<Stroke>,
}

/// What a sequence of strokes holds.
pub open spec fn views_of(strokes: Seq<Stroke>) -> Seq<StrokeView> {
    Seq::new(strokes.len(), |i: int| strokes[i]@)
}

/// The stroke that one stroke of a handwritten word becomes: its points in
/// order, in black, all with one pressure. A word counts in pixels.
pub open spec fn word_stroke(points: Seq<crate::unipen::Point>) -> StrokeView {
    StrokeView {
        color: Color::Black,
        tip_size: 2,
        step: 2,
        points: Seq::new(
            points.len(),
            |i: int|
                PointAndPressure {
                    x: (64 * points[i].x) as i32,
                    y: (64 * points[i].y) as i32,
                    pressure: 1024,
                },
        ),
    }
}

impl View for Strokes {
    type V = Seq<StrokeView>;

    closed spec fn view(&self) -> Seq<StrokeView> {
        views_of(self.strokes@)
    }
}

impl Strokes {
    /// The figure made of the given strokes.
    pub fn from(strokes: Vec<Stroke>) -> (r: Strokes)
        ensures
            r@ == views_of(strokes@),
    {
        Strokes { strokes }
    }

    /// The number of strokes.
    pub fn len(&self) -> (n: usize)
        ensures
            n == self@.len(),
    {
        self.strokes.len()
    }

    /// The segments that paint the figure: those of each stroke, in order.
    pub fn draw(&self) -> (r: Vec<Vec<Segment>>)
        ensures
            r@.len() == self@.len(),
            forall|i: int| 0 <= i < r@.len() ==> (#[trigger] r@[i])@ == self@[i].segments(),
    {
        let mut out: Vec<Vec<Segment>> = Vec::new();
        let mut i: usize = 0;
        while i < self.strokes.len()
            invariant
                i <= self.strokes@.len(),
                out@.len() == i,
                forall|k: int| 0 <= k < i ==> (#[trigger] out@[k])@ == self@[k].segments(),
            decreases self.strokes@.len() - i,
        {
            out.push(self.strokes[i].draw());
            i = i + 1;
        }
        out
    }

    /// The smallest rectangle that holds everything the figure paints, or
    /// nothing for a figure without points.
    pub fn bounding_box(&self) -> (r: Option<Bounds>)
        ensures
            r.is_some() == has_points(self@),
            r.is_some() ==> within(self@, r.unwrap()) && touched(self@, r.unwrap()),
            r.is_some() ==> -0x1_0800_0000_0000 <= r.unwrap().xmin <= r.unwrap().xmax
                <= 0x1_0800_0000_0000,
            r.is_some() ==> -0x1_0800_0000_0000 <= r.unwrap().ymin <= r.unwrap().ymax
                <= 0x1_0800_0000_0000,
    {
        let ghost views = self@;
        let mut found = false;
        let mut b = Bounds { xmin: 0, xmax: 0, ymin: 0, ymax: 0 };
        let ghost mut at_xmin: (int, int) = (0, 0);
        let ghost mut at_xmax: (int, int) = (0, 0);
        let ghost mut at_ymin: (int, int) = (0, 0);
        let ghost mut at_ymax: (int, int) = (0, 0);
        let mut i: usize = 0;
        while i < self.strokes.len()
            invariant
                views == self@,
                views.len() == self.strokes@.len(),
                i <= self.strokes@.len(),
                !found ==> forall|k: int| 0 <= k < i ==> (#[trigger] views[k]).points.len() == 0,
                found ==> seen_bounds(views, i as int, 0, b, at_xmin, at_xmax, at_ymin, at_ymax),
            decreases self.strokes@.len() - i,
        {
            let stroke = &self.strokes[i];
            assert(stroke@ == views[i as int]);
            let mut j: usize = 0;
            while j < stroke.points_and_pressure.len()
                invariant
                    views == self@,
                    views.len() == self.strokes@.len(),
                    i < self.strokes@.len(),
                    stroke@ == views[i as int],
                    j <= stroke.points_and_pressure@.len(),
                    !found ==> j == 0,
                    !found ==> forall|k: int|
                        0 <= k < i ==> (#[trigger] views[k]).points.len() == 0,
                    found ==> seen_bounds(
                        views,
                        i as int,
                        j as int,
                        b,
                        at_xmin,
                        at_xmax,
                        at_ymin,
                        at_ymax,
                    ),
                decreases stroke.points_and_pressure@.len() - j,
            {
                let p = stroke.points_and_pressure[j];
                let x = reach(p.x, stroke.tip_size, p.pressure);
                let y = reach(p.y, stroke.tip_size, p.pressure);
                assert(x == reach_x(views[i as int], j as int));
                assert(y == reach_y(views[i as int], j as int));
                let ghost was_found = found;
                let ghost b0 = b;
                assert forall|k: int, l: int| #[trigger]
                    before(views, i as int, j + 1, k, l) implies (k == i && l == j) || (was_found
                    && before(views, i as int, j as int, k, l)) by {
                    if !(k == i && l == j) {
                        assert(before(views, i as int, j as int, k, l));
                        if !was_found {
                            assert(views[k].points.len() == 0);
                        }
                    }
                }
                if !found {
                    b = Bounds { xmin: x, xmax: x, ymin: y, ymax: y };
                    found = true;
                    proof {
                        at_xmin = (i as int, j as int);
                        at_xmax = (i as int, j as int);
                        at_ymin = (i as int, j as int);
                        at_ymax = (i as int, j as int);
                    }
                } else {
                    if x < b.xmin {
                        b.xmin = x;
                        proof {
                            at_xmin = (i as int, j as int);
                        }
                    }
                    if x > b.xmax {
                        b.xmax = x;
                        proof {
                            at_xmax = (i as int, j as int);
                        }
                    }
                    if y < b.ymin {
                        b.ymin = y;
                        proof {
                            at_ymin = (i as int, j as int);
                        }
                    }
                    if y > b.ymax {
                        b.ymax = y;
                        proof {
                            at_ymax = (i as int, j as int);
                        }
                    }
                }
                proof {
                    if was_found {
                        assert forall|k: int, l: int| #[trigger]
                            before(views, i as int, j as int, k, l) implies b0.xmin <= reach_x(
                            views[k],
                            l,
                        ) <= b0.xmax && b0.ymin <= reach_y(views[k], l) <= b0.ymax by {}
                    }
                    assert forall|k: int, l: int| #[trigger]
                        before(views, i as int, j + 1, k, l) implies b.xmin <= reach_x(
                        views[k],
                        l,
                    ) <= b.xmax && b.ymin <= reach_y(views[k], l) <= b.ymax by {
                        if !(k == i && l == j) {
                            assert(before(views, i as int, j as int, k, l));
                        }
                    }
                }
                j = j + 1;
            }
            proof {
                if found {
                    assert forall|k: int, l: int| #[trigger]
                        before(views, i + 1, 0, k, l) implies b.xmin <= reach_x(views[k], l)
                        <= b.xmax && b.ymin <= reach_y(views[k], l) <= b.ymax by {
                        assert(before(views, i as int, j as int, k, l));
                    }
                }
            }
            i = i + 1;
        }
        if found {
            proof {
                assert forall|k: int, l: int|
                    0 <= k < views.len() && 0 <= l < views[k].points.len() implies #[trigger] in_bounds(
                    views[k],
                    l,
                    b,
                ) by {
                    assert(before(views, i as int, 0, k, l));
                }
                assert(seen_place(views, i as int, 0, at_xmin));
                assert(seen_place(views, i as int, 0, at_xmax));
                assert(seen_place(views, i as int, 0, at_ymin));
                assert(seen_place(views, i as int, 0, at_ymax));
                assert(views[at_xmin.0].points.len() > 0);
            }
            Some(b)
        } else {
            None
        }
    }

    /// How far the figure can move on the canvas: the least and the greatest
    /// shift along the columns, then along the rows, as numerators over 4096.
    /// A figure without points has no such limits.
    pub fn translation_boundaries(&self) -> (r: Option<(i64, i64, i64, i64)>)
        ensures
            r.is_some() == has_points(self@),
            r.is_some() ==> exists|b: Bounds|
                within(self@, b) && touched(self@, b) && #[trigger] boundaries_spec(b) == (
                    r.unwrap().0 as int,
                    r.unwrap().1 as int,
                    r.unwrap().2 as int,
                    r.unwrap().3 as int,
                ),
    {
        match self.bounding_box() {
            None => None,
            Some(b) => {
                let left: i64 = 4096 * CANVAS_WIDTH - b.xmin;
                let right: i64 = 4096 * CANVAS_WIDTH - b.xmax;
                let top: i64 = 4096 * CANVAS_HEIGHT - b.ymin;
                let bottom: i64 = 4096 * CANVAS_HEIGHT - b.ymax;
                let width: i64 = b.xmax - b.xmin;
                let height: i64 = b.ymax - b.ymin;
                let r = (-(left - width), right - width, -(top - height), bottom - height);
                assert(boundaries_spec(b) == (r.0 as int, r.1 as int, r.2 as int, r.3 as int));
                Some(r)
            },
        }
    }

    /// Moves every stroke by `(dx, dy)`.
    pub fn translate(&mut self, dx: i32, dy: i32)
        ensures
            final(self)@.len() == old(self)@.len(),
            forall|i: int|
                0 <= i < old(self)@.len() ==> (#[trigger] final(self)@[i]) == old(self)@[i].translated(
                    dx,
                    dy,
                ),
    {
        let n = self.strokes.len();
        let mut moved_strokes: Vec<Stroke> = Vec::with_capacity(n);
        let mut i: usize = 0;
        while i < n
            invariant
                n == self.strokes@.len(),
                self.strokes@ == old(self).strokes@,
                i <= n,
                moved_strokes@.len() == i,
                forall|k: int|
                    0 <= k < i ==> (#[trigger] moved_strokes@[k])@ == self.strokes@[k]@.translated(
                        dx,
                        dy,
                    ),
            decreases n - i,
        {
            let stroke = &self.strokes[i];
            let mut copy = Stroke::default();
            copy.set_color(stroke.color);
            copy.set_tip_size(stroke.tip_size);
            copy.set_step(stroke.step);
            copy.set_points_and_pressure(&stroke.points_and_pressure);
            copy.translate(dx, dy);
            moved_strokes.push(copy);
            i = i + 1;
        }
        self.strokes = moved_strokes;
    }

    /// The strokes of a handwritten word.
    pub fn from_ujipenchars(uji: &Word) -> (r: Strokes)
        ensures
            r@.len() == uji.strokes@.len(),
            forall|i: int| 0 <= i < r@.len() ==> (#[trigger] r@[i]) == word_stroke(uji.strokes@[i]@),
    {
        let mut strokes: Vec<Stroke> = Vec::new();
        let mut i: usize = 0;
        while i < uji.strokes.len()
            invariant
                i <= uji.strokes@.len(),
                strokes@.len() == i,
                forall|k: int|
                    0 <= k < i ==> (#[trigger] strokes@[k])@ == word_stroke(uji.strokes@[k]@),
            decreases uji.strokes@.len() - i,
        {
            let uji_stroke = &uji.strokes[i];
            let mut pnp: Vec<PointAndPressure> = Vec::with_capacity(uji_stroke.len());
            let mut j: usize = 0;
            while j < uji_stroke.len()
                invariant
                    j <= uji_stroke@.len(),
                    pnp@.len() == j,
                    forall|k: int|
                        0 <= k < j ==> pnp@[k] == (PointAndPressure {
                            x: (64 * uji_stroke@[k].x) as i32,
                            y: (64 * uji_stroke@[k].y) as i32,
                            pressure: 1024,
                        }),
                decreases uji_stroke@.len() - j,
            {
                let p = uji_stroke[j];
                pnp.push(
                    PointAndPressure {
                        x: UNITS_PER_PIXEL * (p.x as i32),
                        y: UNITS_PER_PIXEL * (p.y as i32),
                        pressure: WORD_PRESSURE,
                    },
                );
                j = j + 1;
            }
            let mut stroke = Stroke::default();
            stroke.set_points_and_pressure(&pnp);
            stroke.set_color(Color::Black);
            stroke.set_step(WORD_STEP);
            assert(stroke@.points =~= word_stroke(uji_stroke@).points);
            strokes.push(stroke);
            i = i + 1;
        }
        Strokes::from(strokes)
    }
}

} // verus!
