//! One recorded sketch per line: a word, and the strokes that someone drew
//! for it, each as a row of columns and a row of rows.

use vstd::prelude::*;
use crate::drawing::{Color, Drawing, DrawingError, DrawingView};
use crate::rect::UNITS_PER_PIXEL;

verus! {

/// The pressure of every point of a sketch.
pub const PRESSURE: i32 = 2000;

/// The brush multiplier of every point of a sketch.
pub const WIDTH: u32 = 2;

/// One sketch as it is recorded.
#[derive(Debug)]
pub struct DrawingBis {
    pub word: String,
    pub countrycode: String,
    pub timestamp: String,
    pub recognized: bool,
    pub key_id: String,
    pub drawing: Vec<(Vec<u8>, Vec<u8>)>,
}

/// The drawing of one stroke of a sketch: its points in order, in black, all
/// with one pressure and one brush. A sketch counts in pixels.
pub open spec fn stroke_view(xs: Seq<u8>, ys: Seq<u8>) -> DrawingView {
    DrawingView {
        xs: Seq::new(xs.len(), |i: int| (64 * xs[i]) as i32),
        ys: Seq::new(ys.len(), |i: int| (64 * ys[i]) as i32),
        pressures: Seq::new(xs.len(), |i: int| 2000i32),
        widths: Seq::new(xs.len(), |i: int| 2u32),
        color: Color::Black,
    }
}

/// Whether each of the first `n` strokes has as many rows as columns.
pub open spec fn rows_match(strokes: Seq<(Vec<u8>, Vec<u8>)>, n: nat) -> bool {
    forall|i: int| 0 <= i < n ==> (#[trigger] strokes[i]).0@.len() == strokes[i].1@.len()
}

/// The drawings of the first `n` strokes, in order. A stroke of fewer than
/// three points leaves no ink and is left out.
pub open spec fn drawings_of(strokes: Seq<(Vec<u8>, Vec<u8>)>, n: nat) -> Seq<DrawingView>
    decreases n,
{
    if n == 0 {
        Seq::empty()
    } else {
        let before = drawings_of(strokes, (n - 1) as nat);
        let stroke = strokes[n - 1];
        if stroke.0@.len() >= 3 {
            before.push(stroke_view(stroke.0@, stroke.1@))
        } else {
            before
        }
    }
}

/// What a sequence of drawings holds.
pub open spec fn views_of(drawings: Seq<Drawing>) -> Seq<DrawingView> {
    Seq::new(drawings.len(), |i: int| drawings[i]@)
}

/// Turns one stroke of a sketch into a drawing.
fn stroke_drawing(xs: &Vec<u8>, ys: &Vec<u8>) -> (r: Result<Drawing, DrawingError>)
    ensures
        xs@.len() != ys@.len() ==> r == Err::<Drawing, DrawingError>(DrawingError::InvalidDrawing),
        xs@.len() == ys@.len() && xs@.len() < 3 ==> r == Err::<Drawing, DrawingError>(
            DrawingError::TooFewPoints,
        ),
        xs@.len() == ys@.len() && xs@.len() >= 3 ==> r.is_ok() && r.unwrap()@ == stroke_view(
            xs@,
            ys@,
        ) && r.unwrap()@.wf(),
{
    let n = xs.len();
    if ys.len() != n {
        return Err(DrawingError::InvalidDrawing);
    }
    let mut out_xs: Vec<i32> = Vec::with_capacity(n);
    let mut out_ys: Vec<i32> = Vec::with_capacity(n);
    let mut pressures: Vec<i32> = Vec::with_capacity(n);
    let mut widths: Vec<u32> = Vec::with_capacity(n);
    let mut i: usize = 0;
    while i < n
        invariant
            n == xs@.len(),
            n == ys@.len(),
            i <= n,
            out_xs@.len() == i,
            out_ys@.len() == i,
            pressures@.len() == i,
            widths@.len() == i,
            forall|k: int| 0 <= k < i ==> out_xs@[k] == 64 * xs@[k],
            forall|k: int| 0 <= k < i ==> out_ys@[k] == 64 * ys@[k],
            forall|k: int| 0 <= k < i ==> pressures@[k] == 2000,
            forall|k: int| 0 <= k < i ==> widths@[k] == 2,
        decreases n - i,
    {
        out_xs.push(UNITS_PER_PIXEL * (xs[i] as i32));
        out_ys.push(UNITS_PER_PIXEL * (ys[i] as i32));
        pressures.push(PRESSURE);
        widths.push(WIDTH);
        i = i + 1;
    }
    let ghost want = stroke_view(xs@, ys@);
    assert(out_xs@ =~= want.xs);
    assert(out_ys@ =~= want.ys);
    assert(pressures@ =~= want.pressures);
    assert(widths@ =~= want.widths);
    Drawing::new(out_xs, out_ys, pressures, widths, Color::Black)
}

impl DrawingBis {
    /// The drawings of the sketch, one for each stroke of three points or
    /// more, in order. A sketch that was not recognized gives none. A stroke
    /// with more rows than columns, or fewer, fails the whole sketch with
    /// `InvalidDrawing`.
    pub fn into_vec(self) -> (r: Result<Vec<Drawing>, DrawingError>)
        ensures
            !self.recognized ==> r.is_ok() && r.unwrap()@.len() == 0,
            self.recognized && !rows_match(self.drawing@, self.drawing@.len()) ==> r == Err::<
                Vec<Drawing>,
                DrawingError,
            >(DrawingError::InvalidDrawing),
            self.recognized && rows_match(self.drawing@, self.drawing@.len()) ==> r.is_ok()
                && views_of(r.unwrap()@) == drawings_of(self.drawing@, self.drawing@.len()),
    {
        let mut out: Vec<Drawing> = Vec::new();
        if !self.recognized {
            return Ok(out);
        }
        let n = self.drawing.len();
        let mut i: usize = 0;
        while i < n
            invariant
                self.recognized,
                n == self.drawing@.len(),
                i <= n,
                rows_match(self.drawing@, i as nat),
                views_of(out@) == drawings_of(self.drawing@, i as nat),
            decreases n - i,
        {
            let stroke = &self.drawing[i];
            let ghost before = out@;
            match stroke_drawing(&stroke.0, &stroke.1) {
                Ok(drawing) => {
                    out.push(drawing);
                    assert(views_of(out@) =~= views_of(before).push(drawing@));
                },
                Err(DrawingError::TooFewPoints) => {},
                Err(DrawingError::InvalidDrawing) => {
                    assert(!rows_match(self.drawing@, n as nat)) by {
                        assert(self.drawing@[i as int].0@.len() != self.drawing@[i as int].1@.len());
                    }
                    return Err(DrawingError::InvalidDrawing);
                },
            }
            i = i + 1;
        }
        Ok(out)
    }
}

} // verus!
