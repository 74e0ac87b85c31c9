//! The fixed parts of the screen as strokes: the bar under the controls, the
//! presence counter, and glyphs made of straight paths.

use vstd::prelude::*;
use crate::drawing::{Color, Drawing, DrawingView};
use crate::rect::UNITS_PER_PIXEL;

verus! {

/// The row of the bar under the controls: that of pixel 70.
pub const BAR_ROW: i32 = 4480;

/// The brush multiplier of the bar.
pub const BAR_WIDTH: u32 = 2;

/// The pressure of the fixed parts of the screen.
pub const FIRM: i32 = 3992;

/// The number of points of the bar: one per column but the first.
pub const BAR_POINTS: usize = 1403;

/// The brush multiplier of the presence counter.
pub const COUNTER_WIDTH: u32 = 3;

/// The digit that shows a count: the count itself up to nine, and nine for
/// every greater count.
pub open spec fn digit_spec(count: u32) -> u8 {
    if count <= 9 {
        count as u8
    } else {
        9
    }
}

/// The bar under the controls: a straight line from the second column of
/// pixels to the last, with one point per column.
pub open spec fn bar_view(color: Color) -> DrawingView {
    DrawingView {
        xs: Seq::new(1403, |i: int| (64 * (i + 1)) as i32),
        ys: Seq::new(1403, |i: int| 4480i32),
        pressures: Seq::new(1403, |i: int| 3992i32),
        widths: Seq::new(1403, |i: int| 2u32),
        color,
    }
}

/// The point halfway between two coordinates, rounded down.
pub open spec fn halfway(a: i32, b: i32) -> i32 {
    ((a + b) / 2) as i32
}

/// A point of a path.
#[derive(Clone, Copy, Debug, PartialEq, Eq, Structural)]
pub struct PathPoint {
    pub x: i32,
    pub y: i32,
}

/// The stroke of one straight piece of a path: its two ends and the point
/// halfway between them, so that the smoother has a window to work on.
pub open spec fn piece_view(a: PathPoint, b: PathPoint, pressure: i32, width: u32, color: Color) -> DrawingView {
    DrawingView {
        xs: seq![a.x, halfway(a.x, b.x), b.x],
        ys: seq![a.y, halfway(a.y, b.y), b.y],
        pressures: seq![pressure, pressure, pressure],
        widths: seq![width, width, width],
        color,
    }
}

/// The digit that shows a count.
pub fn counter_digit(count: u32) -> (digit: u8)
    ensures
        digit == digit_spec(count),
        digit <= 9,
{
    if count <= 9 {
        count as u8
    } else {
        9
    }
}

/// What to paint when the count changes: the old digit in white, which
/// takes it off the screen, then the new digit in black.
pub fn repaint_people_counter(before: u32, after: u32) -> (r: [(u8, Color); 2])
    ensures
        r[0] == (digit_spec(before), Color::White),
        r[1] == (digit_spec(after), Color::Black),
{
    [(counter_digit(before), Color::White), (counter_digit(after), Color::Black)]
}

/// The bar under the controls in the given colour.
pub fn top_bar(c: Color) -> (r: Drawing)
    ensures
        r@ == bar_view(c),
        r@.wf(),
{
    let mut xs: Vec<i32> = Vec::with_capacity(BAR_POINTS);
    let mut ys: Vec<i32> = Vec::with_capacity(BAR_POINTS);
    let mut pressures: Vec<i32> = Vec::with_capacity(BAR_POINTS);
    let mut widths: Vec<u32> = Vec::with_capacity(BAR_POINTS);
    let mut i: usize = 0;
    while i < BAR_POINTS
        invariant
            i <= 1403,
            xs@.len() == i,
            ys@.len() == i,
            pressures@.len() == i,
            widths@.len() == i,
            forall|k: int| 0 <= k < i ==> xs@[k] == 64 * (k + 1),
            forall|k: int| 0 <= k < i ==> ys@[k] == 4480,
            forall|k: int| 0 <= k < i ==> pressures@[k] == 3992,
            forall|k: int| 0 <= k < i ==> widths@[k] == 2,
        decreases 1403 - i,
    {
        xs.push(UNITS_PER_PIXEL * (i as i32 + 1));
        ys.push(BAR_ROW);
        pressures.push(FIRM);
        widths.push(BAR_WIDTH);
        i = i + 1;
    }
    let ghost want = bar_view(c);
    assert(xs@ =~= want.xs);
    assert(ys@ =~= want.ys);
    assert(pressures@ =~= want.pressures);
    assert(widths@ =~= want.widths);
    match Drawing::new(xs, ys, pressures, widths, c) {
        Ok(d) => d,
        Err(_) => vstd::pervasive::unreached(),
    }
}

/// The point halfway between two coordinates, rounded down.
pub fn midpoint(a: i32, b: i32) -> (m: i32)
    ensures
        m == halfway(a, b),
{
    let sum: i64 = a as i64 + b as i64;
    if sum >= 0 {
        (sum / 2) as i32
    } else {
        (-((1 - sum) / 2)) as i32
    }
}

/// The stroke of one straight piece of a path.
pub fn piece(a: PathPoint, b: PathPoint, pressure: i32, width: u32, color: Color) -> (r: Drawing)
    ensures
        r@ == piece_view(a, b, pressure, width, color),
        r@.wf(),
{
    let xs: Vec<i32> = vec![a.x, midpoint(a.x, b.x), b.x];
    let ys: Vec<i32> = vec![a.y, midpoint(a.y, b.y), b.y];
    let pressures: Vec<i32> = vec![pressure, pressure, pressure];
    let widths: Vec<u32> = vec![width, width, width];
    let ghost want = piece_view(a, b, pressure, width, color);
    assert(xs@ =~= want.xs);
    assert(ys@ =~= want.ys);
    assert(pressures@ =~= want.pressures);
    assert(widths@ =~= want.widths);
    match Drawing::new(xs, ys, pressures, widths, color) {
        Ok(d) => d,
        Err(_) => vstd::pervasive::unreached(),
    }
}

/// The strokes of a path of straight pieces: one stroke for each two
/// consecutive points, in order. A path of fewer than two points has none.
pub fn paint_glyph(path: &Vec<PathPoint>, p: i32, w: u32, c: Color) -> (r: Vec<Drawing>)
    ensures
        path@.len() < 2 ==> r@.len() == 0,
        path@.len() >= 2 ==> r@.len() == path@.len() - 1,
        forall|i: int|
            0 <= i < r@.len() ==> (#[trigger] r@[i])@ == piece_view(path@[i], path@[i + 1], p, w, c),
{
    let mut out: Vec<Drawing> = Vec::new();
    if path.len() < 2 {
        return out;
    }
    let mut i: usize = 0;
    while i < path.len() - 1
        invariant
            path@.len() >= 2,
            i <= path@.len() - 1,
            out@.len() == i,
            forall|k: int|
                0 <= k < i ==> (#[trigger] out@[k])@ == piece_view(path@[k], path@[k + 1], p, w, c),
        decreases path@.len() - i,
    {
        out.push(piece(path[i], path[i + 1], p, w, c));
        i = i + 1;
    }
    out
}

} // verus!
