//! A stroke recorded as a line of points.

use vstd::prelude::*;
use crate::drawing::{Color, Drawing, DrawingError, DrawingView};

verus! {

/// The pressure of every point of a line.
pub const PRESSURE: i32 = 2000;

/// The brush multiplier of every point of a line.
pub const WIDTH: u32 = 2;

/// The drawing of a line: its points in order, in black, all with one
/// pressure and one brush.
pub open spec fn line_view(line: Seq<(i32, i32)>) -> DrawingView {
    DrawingView {
        xs: Seq::new(line.len(), |i: int| line[i].0),
        ys: Seq::new(line.len(), |i: int| line[i].1),
        pressures: Seq::new(line.len(), |i: int| 2000i32),
        widths: Seq::new(line.len(), |i: int| 2u32),
        color: Color::Black,
    }
}

/// Turns a line of three points or more into a drawing. A shorter line
/// fails with `TooFewPoints`.
pub fn into_drawing(line: Vec<(i32, i32)>) -> (r: Result<Drawing, DrawingError>)
    ensures
        line@.len() >= 3 ==> r.is_ok() && r.unwrap()@ == line_view(line@) && r.unwrap()@.wf(),
        line@.len() < 3 ==> r == Err::<Drawing, DrawingError>(DrawingError::TooFewPoints),
{
    let n = line.len();
    let mut xs: Vec<i32> = Vec::with_capacity(n);
    let mut ys: Vec<i32> = Vec::with_capacity(n);
    let mut pressures: Vec<i32> = Vec::with_capacity(n);
    let mut widths: Vec<u32> = Vec::with_capacity(n);
    let mut i: usize = 0;
    while i < n
        invariant
            n == line@.len(),
            i <= n,
            xs@.len() == i,
            ys@.len() == i,
            pressures@.len() == i,
            widths@.len() == i,
            forall|k: int| 0 <= k < i ==> xs@[k] == line@[k].0,
            forall|k: int| 0 <= k < i ==> ys@[k] == line@[k].1,
            forall|k: int| 0 <= k < i ==> pressures@[k] == 2000,
            forall|k: int| 0 <= k < i ==> widths@[k] == 2,
        decreases n - i,
    {
        let point = line[i];
        xs.push(point.0);
        ys.push(point.1);
        pressures.push(PRESSURE);
        widths.push(WIDTH);
        i = i + 1;
    }
    let ghost want = line_view(line@);
    assert(xs@ =~= want.xs);
    assert(ys@ =~= want.ys);
    assert(pressures@ =~= want.pressures);
    assert(widths@ =~= want.widths);
    Drawing::new(xs, ys, pressures, widths, Color::Black)
}

} // verus!
