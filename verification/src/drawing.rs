//! A finished stroke as it travels between participants: four parallel
//! sequences and one colour.

use vstd::prelude::*;
use crate::smoother::{make_segment, segment_spec, Sample, Segment};

verus! {

/// The colour of a whole stroke.
#[derive(Clone, Copy, Debug, PartialEq, Eq, Structural)]
pub enum Color {
    Black,
    White,
    Invisible,
}

/// Why four sequences do not make a drawing.
#[derive(Clone, Copy, Debug, PartialEq, Eq, Structural)]
pub enum DrawingError {
    /// The four sequences are not all of one length.
    InvalidDrawing,
    /// The sequences agree in length but hold fewer than three points.
    TooFewPoints,
}

/// The fewest points that a drawing holds: one window of the smoother.
pub const MIN_POINTS: usize = 3;

/// What a drawing is: the positions, pressures and brush multipliers of its
/// points, and its colour.
pub struct DrawingView {
    pub xs: Seq<i32>,
    pub ys: Seq<i32>,
    pub pressures: Seq<i32>,
    pub widths: Seq<u32>,
    pub color: Color,
}

impl DrawingView {
    /// The four sequences have one length, and it is at least three.
    pub open spec fn wf(self) -> bool {
        &&& self.xs.len() >= 3
        &&& self.ys.len() == self.xs.len()
        &&& self.pressures.len() == self.xs.len()
        &&& self.widths.len() == self.xs.len()
    }

    /// The number of points.
    pub open spec fn len(self) -> nat {
        self.xs.len()
    }

    /// The `i`-th point as a pointer sample.
    pub open spec fn sample(self, i: int) -> Sample {
        Sample { x: self.xs[i], y: self.ys[i], pressure: self.pressures[i], tilt: None }
    }

    /// The segment of the window that starts at point `i`: each of the three
    /// points is painted with its own multiplier.
    pub open spec fn segment(self, i: int) -> Segment {
        segment_spec(
            self.sample(i),
            self.widths[i],
            self.sample(i + 1),
            self.widths[i + 1],
            self.sample(i + 2),
            self.widths[i + 2],
        )
    }

    /// The segments that render the drawing, in order: one per window of
    /// three consecutive points.
    pub open spec fn segments(self) -> Seq<Segment> {
        Seq::new(
            if self.xs.len() >= 3 { (self.xs.len() - 2) as nat } else { 0 },
            |i: int| self.segment(i),
        )
    }

    /// The same points in another colour.
    pub open spec fn with_color(self, color: Color) -> DrawingView {
        DrawingView { color, ..self }
    }
}

/// Whether four lengths are one length.
pub open spec fn lengths_agree(xs: nat, ys: nat, pressures: nat, widths: nat) -> bool {
    xs == ys && xs == pressures && xs == widths
}

/// The ink that a colour is painted with. Only `White` paints white.
pub open spec fn ink_spec(color: Color) -> Color {
    match color {
        Color::White => Color::White,
        _ => Color::Black,
    }
}

/// `Black` for `true`, `White` for `false`.
pub fn black(x: bool) -> (c: Color)
    ensures
        c == (if x { Color::Black } else { Color::White }),
{
    if x {
        Color::Black
    } else {
        Color::White
    }
}

impl Color {
    /// The ink that this colour is painted with. Only `White` paints white.
    pub fn ink(self) -> (c: Color)
        ensures
            c == ink_spec(self),
    {
        match self {
            Color::White => Color::White,
            _ => Color::Black,
        }
    }
}

/// One complete stroke. Its four sequences always have one length, of three
/// points at least.
#[derive(Debug, PartialEq, Eq)]
pub struct Drawing {
    xs: Vec<i32>,
    ys: Vec<i32>,
    pressures: Vec<i32>,
    widths: Vec<u32>,
    color: Color,
}

impl View for Drawing {
    type V = DrawingView;

    closed spec fn view(&self) -> DrawingView {
        DrawingView {
            xs: self.xs@,
            ys: self.ys@,
            pressures: self.pressures@,
            widths: self.widths@,
            color: self.color,
        }
    }
}

impl Clone for Drawing {
    fn clone(&self) -> (r: Drawing)
        ensures
            r@ == self@,
    {
        proof {
            use_type_invariant(self);
        }
        let r = Drawing {
            xs: self.xs.clone(),
            ys: self.ys.clone(),
            pressures: self.pressures.clone(),
            widths: self.widths.clone(),
            color: self.color,
        };
        assert(r.xs@ =~= self.xs@);
        assert(r.ys@ =~= self.ys@);
        assert(r.pressures@ =~= self.pressures@);
        assert(r.widths@ =~= self.widths@);
        r
    }
}

impl Drawing {
    #[verifier::type_invariant]
    closed spec fn inv(&self) -> bool {
        self@.wf()
    }

    /// Makes a drawing of four sequences and a colour.
    ///
    /// Fails with `InvalidDrawing` when the sequences differ in length, and
    /// with `TooFewPoints` when they agree but hold fewer than three points.
    pub fn new(
        xs: Vec<i32>,
        ys: Vec<i32>,
        pressures: Vec<i32>,
        widths: Vec<u32>,
        color: Color,
    ) -> (r: Result<Drawing, DrawingError>)
        ensures
            match r {
                Ok(d) => {
                    &&& lengths_agree(xs@.len(), ys@.len(), pressures@.len(), widths@.len())
                    &&& xs@.len() >= 3
                    &&& d@ == (DrawingView {
                        xs: xs@,
                        ys: ys@,
                        pressures: pressures@,
                        widths: widths@,
                        color,
                    })
                    &&& d@.wf()
                },
                Err(DrawingError::InvalidDrawing) => !lengths_agree(
                    xs@.len(),
                    ys@.len(),
                    pressures@.len(),
                    widths@.len(),
                ),
                Err(DrawingError::TooFewPoints) => {
                    &&& lengths_agree(xs@.len(), ys@.len(), pressures@.len(), widths@.len())
                    &&& xs@.len() < 3
                },
            },
    {
        let n = xs.len();
        if ys.len() != n || pressures.len() != n || widths.len() != n {
            Err(DrawingError::InvalidDrawing)
        } else if n < MIN_POINTS {
            Err(DrawingError::TooFewPoints)
        } else {
            Ok(Drawing { xs, ys, pressures, widths, color })
        }
    }

    /// The number of points, which all four sequences share.
    pub fn len(&self) -> (n: usize)
        ensures
            n == self@.len(),
            n >= 3,
            self@.wf(),
    {
        proof {
            use_type_invariant(self);
        }
        self.xs.len()
    }

    pub fn xs(&self) -> (r: &Vec<i32>)
        ensures
            r@ == self@.xs,
            self@.wf(),
    {
        proof {
            use_type_invariant(self);
        }
        &self.xs
    }

    pub fn ys(&self) -> (r: &Vec<i32>)
        ensures
            r@ == self@.ys,
            self@.wf(),
    {
        proof {
            use_type_invariant(self);
        }
        &self.ys
    }

    pub fn pressures(&self) -> (r: &Vec<i32>)
        ensures
            r@ == self@.pressures,
            self@.wf(),
    {
        proof {
            use_type_invariant(self);
        }
        &self.pressures
    }

    pub fn widths(&self) -> (r: &Vec<u32>)
        ensures
            r@ == self@.widths,
            self@.wf(),
    {
        proof {
            use_type_invariant(self);
        }
        &self.widths
    }

    pub fn color(&self) -> (c: Color)
        ensures
            c == self@.color,
    {
        self.color
    }

    /// The same points in another colour.
    pub fn with_color(&self, color: Color) -> (r: Drawing)
        ensures
            r@ == self@.with_color(color),
            r@.wf(),
    {
        proof {
            use_type_invariant(self);
        }
        let copy = self.clone();
        Drawing {
            xs: copy.xs,
            ys: copy.ys,
            pressures: copy.pressures,
            widths: copy.widths,
            color,
        }
    }

    /// The pass that takes the stroke off the canvas again: the same points
    /// in the background colour.
    pub fn erased(&self) -> (r: Drawing)
        ensures
            r@ == self@.with_color(Color::White),
            r@.wf(),
    {
        self.with_color(Color::White)
    }

    /// The `i`-th point as a pointer sample.
    pub fn sample(&self, i: usize) -> (s: Sample)
        requires
            i < self@.len(),
        ensures
            s == self@.sample(i as int),
    {
        proof {
            use_type_invariant(self);
        }
        Sample { x: self.xs[i], y: self.ys[i], pressure: self.pressures[i], tilt: None }
    }

    /// Renders the drawing as segments: one per window of three consecutive
    /// points, so two fewer than there are points.
    pub fn segments(&self) -> (r: Vec<Segment>)
        ensures
            r@ == self@.segments(),
            r@.len() == self@.len() - 2,
    {
        proof {
            use_type_invariant(self);
        }
        let n = self.xs.len();
        let mut out: Vec<Segment> = Vec::new();
        let mut i: usize = 0;
        while i < n - 2
            invariant
                self@.wf(),
                n == self@.len(),
                i <= n - 2,
                out@.len() == i,
                forall|k: int| 0 <= k < i ==> out@[k] == self@.segment(k),
            decreases n - i,
        {
            let oldest = self.sample(i);
            let middle = self.sample(i + 1);
            let newest = self.sample(i + 2);
            let segment = make_segment(
                &oldest,
                self.widths[i],
                &middle,
                self.widths[i + 1],
                &newest,
                self.widths[i + 2],
            );
            out.push(segment);
            i = i + 1;
        }
        assert(out@ =~= self@.segments());
        out
    }
}

} // verus!
