//! One recorded stroke per line, with its colour by name.

use vstd::prelude::*;
use crate::drawing::{lengths_agree, Color, Drawing, DrawingError, DrawingView};

verus! {

/// What `str::to_lowercase` makes of a string: the string in lower case.
pub uninterp spec fn lowercase_of(s: Seq<char>) -> Seq<char>;

/// Calls `str::to_lowercase`, which gives the string in lower case. The
/// result depends on the string alone.
#[verifier::external_body]
fn lowercase(s: &str) -> (lower: String)
    ensures
        lower@ == lowercase_of(s@),
{
    s.to_lowercase()
}

/// One stroke as it is recorded.
#[derive(Debug)]
pub struct DrawingBis {
    pub xs: Vec<i32>,
    pub ys: Vec<i32>,
    pub pressures: Vec<i32>,
    pub widths: Vec<u32>,
    pub color: String,
}

/// The colour with the given name in lower case: `black`, `white`, and
/// `Invisible` for every other name.
pub open spec fn color_named(lower: Seq<char>) -> Color {
    if lower == "black"@ {
        Color::Black
    } else if lower == "white"@ {
        Color::White
    } else {
        Color::Invisible
    }
}

/// The colour with the given name in lower case.
pub fn color_of_lowercase(lower: &String) -> (c: Color)
    ensures
        c == color_named(lower@),
{
    let black = "black".to_owned();
    let white = "white".to_owned();
    if *lower == black {
        Color::Black
    } else if *lower == white {
        Color::White
    } else {
        Color::Invisible
    }
}

/// The colour with the given name, in whatever case it is written.
pub fn color_of_name(name: &str) -> (c: Color)
    ensures
        c == color_named(lowercase_of(name@)),
{
    let lower = lowercase(name);
    color_of_lowercase(&lower)
}

impl DrawingBis {
    /// The drawing that the record holds. It fails as `Drawing::new` does:
    /// with `InvalidDrawing` when the four sequences differ in length, with
    /// `TooFewPoints` when they hold fewer than three points.
    pub fn into_drawing(self) -> (r: Result<Drawing, DrawingError>)
        ensures
            match r {
                Ok(d) => {
                    &&& d@ == (DrawingView {
                        xs: self.xs@,
                        ys: self.ys@,
                        pressures: self.pressures@,
                        widths: self.widths@,
                        color: color_named(lowercase_of(self.color@)),
                    })
                    &&& d@.wf()
                },
                Err(DrawingError::InvalidDrawing) => !lengths_agree(
                    self.xs@.len(),
                    self.ys@.len(),
                    self.pressures@.len(),
                    self.widths@.len(),
                ),
                Err(DrawingError::TooFewPoints) => {
                    &&& lengths_agree(
                        self.xs@.len(),
                        self.ys@.len(),
                        self.pressures@.len(),
                        self.widths@.len(),
                    )
                    &&& self.xs@.len() < 3
                },
            },
    {
        let color = color_of_name(self.color.as_str());
        Drawing::new(self.xs, self.ys, self.pressures, self.widths, color)
    }
}

} // verus!
