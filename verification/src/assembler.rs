//! The drawing assembler: collects the points of one pointer interaction and
//! turns them into one drawing when the interaction ends.

use vstd::prelude::*;
use crate::drawing::{Color, Drawing, DrawingView};

verus! {

/// One point of the interaction in progress, with the brush that made it.
#[derive(Clone, Copy, Debug, PartialEq, Eq, Structural)]
pub struct Scribble {
    pub color: Color,
    pub multiplier: u32,
    pub x: i32,
    pub y: i32,
    pub pressure: i32,
}

/// The drawing that a batch of points makes: the points in order, in the
/// colour of the first one.
pub open spec fn assembled(batch: Seq<Scribble>) -> DrawingView {
    DrawingView {
        xs: Seq::new(batch.len(), |i: int| batch[i].x),
        ys: Seq::new(batch.len(), |i: int| batch[i].y),
        pressures: Seq::new(batch.len(), |i: int| batch[i].pressure),
        widths: Seq::new(batch.len(), |i: int| batch[i].multiplier),
        color: batch[0].color,
    }
}

/// The points collected since the last interaction ended.
pub struct Assembler {
    scribbles: Vec<Scribble>,
}

impl Assembler {
    /// The collected points, in the order in which they came.
    pub closed spec fn view(&self) -> Seq<Scribble> {
        self.scribbles@
    }

    /// An assembler that holds no point.
    pub fn new() -> (a: Assembler)
        ensures
            a@ == Seq::<Scribble>::empty(),
    {
        Assembler { scribbles: Vec::new() }
    }

    /// The number of points collected.
    pub fn len(&self) -> (n: usize)
        ensures
            n == self@.len(),
    {
        self.scribbles.len()
    }

    /// Adds one point to the interaction in progress.
    pub fn push(&mut self, scribble: Scribble)
        ensures
            final(self)@ == old(self)@.push(scribble),
    {
        self.scribbles.push(scribble);
    }

    /// Ends the interaction. Three points or more make one drawing, in the
    /// colour of the first point; fewer make none. The assembler is empty
    /// afterwards either way.
    pub fn finish(&mut self) -> (r: Option<Drawing>)
        ensures
            final(self)@ == Seq::<Scribble>::empty(),
            old(self)@.len() < 3 ==> r.is_none(),
            old(self)@.len() >= 3 ==> r.is_some() && r.unwrap()@ == assembled(old(self)@)
                && r.unwrap()@.wf(),
    {
        let n = self.scribbles.len();
        if n < 3 {
            self.scribbles.clear();
            return None;
        }
        let mut xs: Vec<i32> = Vec::with_capacity(n);
        let mut ys: Vec<i32> = Vec::with_capacity(n);
        let mut pressures: Vec<i32> = Vec::with_capacity(n);
        let mut widths: Vec<u32> = Vec::with_capacity(n);
        let mut i: usize = 0;
        while i < n
            invariant
                n == self.scribbles@.len(),
                self.scribbles@ == old(self).scribbles@,
                i <= n,
                xs@.len() == i,
                ys@.len() == i,
                pressures@.len() == i,
                widths@.len() == i,
                forall|k: int| 0 <= k < i ==> xs@[k] == self.scribbles@[k].x,
                forall|k: int| 0 <= k < i ==> ys@[k] == self.scribbles@[k].y,
                forall|k: int| 0 <= k < i ==> pressures@[k] == self.scribbles@[k].pressure,
                forall|k: int| 0 <= k < i ==> widths@[k] == self.scribbles@[k].multiplier,
            decreases n - i,
        {
            let scribble = self.scribbles[i];
            xs.push(scribble.x);
            ys.push(scribble.y);
            pressures.push(scribble.pressure);
            widths.push(scribble.multiplier);
            i = i + 1;
        }
        let color = self.scribbles[0].color;
        let ghost want = assembled(self.scribbles@);
        assert(xs@ =~= want.xs);
        assert(ys@ =~= want.ys);
        assert(pressures@ =~= want.pressures);
        assert(widths@ =~= want.widths);
        self.scribbles.clear();
        match Drawing::new(xs, ys, pressures, widths, color) {
            Ok(drawing) => Some(drawing),
            Err(_) => None,
        }
    }
}

} // verus!
